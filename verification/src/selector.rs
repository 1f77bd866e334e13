//! Label-selector matching: the pure function deciding which notifier
//! instances a monitor's selector picks, and the textual form of a selector.

use vstd::prelude::*;
use crate::common::Label;

verus! {

/// Whether `labels` carries the pair `key = value`.
pub open spec fn has_label(labels: Seq<Label>, key: Seq<char>, value: Seq<char>) -> bool {
    exists|j: int|
        0 <= j < labels.len() && labels[j].key@ == key && labels[j].value@ == value
}

/// Whether `labels` is a superset of the selector `sel`: every `key = value`
/// pair of the selector occurs in `labels` (exact-match AND semantics).
pub open spec fn selector_matches_spec(sel: Seq<Label>, labels: Seq<Label>) -> bool {
    forall|i: int|
        0 <= i < sel.len() ==> #[trigger] has_label(labels, sel[i].key@, sel[i].value@)
}

/// Whether `labels` carries the pair `key = value`.
pub fn labels_contain(labels: &Vec<Label>, key: &String, value: &String) -> (r: bool)
    ensures
        r == has_label(labels@, key@, value@),
{
    let mut j: usize = 0;
    while j < labels.len()
        invariant
            j <= labels.len(),
            forall|k: int|
                0 <= k < j ==> !(labels@[k].key@ == key@ && labels@[k].value@ == value@),
        decreases labels.len() - j,
    {
        if labels[j].key.eq(key) && labels[j].value.eq(value) {
            return true;
        }
        j += 1;
    }
    false
}

/// Whether `labels` is a superset of the selector `sel`. This is a pure
/// function of its two arguments.
pub fn selector_matches(sel: &Vec<Label>, labels: &Vec<Label>) -> (r: bool)
    ensures
        r == selector_matches_spec(sel@, labels@),
{
    let mut i: usize = 0;
    while i < sel.len()
        invariant
            i <= sel.len(),
            forall|k: int|
                0 <= k < i ==> #[trigger] has_label(labels@, sel@[k].key@, sel@[k].value@),
        decreases sel.len() - i,
    {
        if !labels_contain(labels, &sel[i].key, &sel[i].value) {
            return false;
        }
        i += 1;
    }
    true
}

/// The textual form `key=value` of one label pair.
pub open spec fn label_text(l: Label) -> Seq<char> {
    l.key@ + seq!['='] + l.value@
}

/// The textual form of a selector: its pairs as `key=value`, joined by
/// commas, in order.
pub open spec fn selector_text(sel: Seq<Label>) -> Seq<char>
    decreases sel.len(),
{
    if sel.len() == 0 {
        Seq::empty()
    } else if sel.len() == 1 {
        label_text(sel[0])
    } else {
        selector_text(sel.drop_last()) + seq![','] + label_text(sel.last())
    }
}

/// Renders a selector as the comma-joined `key=value` conjunction used by
/// label-selector list queries.
pub fn format_label_selector(sel: &Vec<Label>) -> (r: String)
    ensures
        r@ == selector_text(sel@),
{
    let mut out = String::new();
    let mut i: usize = 0;
    proof {
        reveal_strlit("=");
        reveal_strlit(",");
        assert(sel@.subrange(0, 0) =~= Seq::<Label>::empty());
    }
    while i < sel.len()
        invariant
            i <= sel.len(),
            out@ == selector_text(sel@.subrange(0, i as int)),
        decreases sel.len() - i,
    {
        if i > 0 {
            out.append(",");
        }
        out.append(sel[i].key.as_str());
        out.append("=");
        out.append(sel[i].value.as_str());
        proof {
            reveal_strlit("=");
            reveal_strlit(",");
            let prefix = sel@.subrange(0, i as int);
            let extended = sel@.subrange(0, i + 1 as int);
            assert(extended.drop_last() =~= prefix);
            assert(extended.last() == sel@[i as int]);
            if i == 0 {
                assert(out@ =~= label_text(sel@[0]));
            }
            assert(out@ =~= selector_text(extended));
        }
        i += 1;
    }
    proof {
        assert(sel@.subrange(0, sel@.len() as int) =~= sel@);
    }
    out
}

} // verus!
