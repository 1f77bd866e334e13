//! Notification fan-out: the capability notifier kinds offer, secret value
//! resolution, and the kind-agnostic selection of the notifier instances a
//! monitor's selector picks.

use vstd::prelude::*;
use crate::common::{ControllerResource, Label};
use crate::selector::{selector_matches, selector_matches_spec};

verus! {

/// The capability every notifier kind offers on top of
/// [`ControllerResource`]: identity and the labels used for selector
/// matching. Delivery itself is kind-specific and runs at the transport
/// boundary.
pub trait NotifierResource: ControllerResource {
    /// The instance's name.
    spec fn spec_name(&self) -> Seq<char>;

    /// The labels attached to the instance.
    spec fn spec_labels(&self) -> Seq<Label>;

    /// The instance's name.
    fn name(&self) -> (s: &String)
        ensures
            s@ == self.spec_name(),
    ;

    /// The labels attached to the instance.
    fn labels(&self) -> (ls: &Vec<Label>)
        ensures
            ls@ == self.spec_labels(),
    ;
}

/// The positions, in order, of the notifiers among the first `n` whose
/// labels are a superset of the selector.
pub open spec fn matching_indices_spec<T: NotifierResource>(
    notifiers: Seq<T>,
    sel: Seq<Label>,
    n: int,
) -> Seq<usize>
    decreases n,
{
    if n <= 0 {
        Seq::empty()
    } else {
        let rest = matching_indices_spec(notifiers, sel, n - 1);
        if selector_matches_spec(sel, notifiers[n - 1].spec_labels()) {
            rest.push((n - 1) as usize)
        } else {
            rest
        }
    }
}

/// Selects, in order, the positions of the notifier instances whose labels
/// are a superset of the selector. The matching is kind-agnostic: it reads
/// nothing of a notifier but its labels.
pub fn matching_notifiers<T: NotifierResource>(notifiers: &Vec<T>, sel: &Vec<Label>) -> (r: Vec<
    usize,
>)
    ensures
        r@ == matching_indices_spec(notifiers@, sel@, notifiers@.len() as int),
{
    let mut r: Vec<usize> = Vec::new();
    let mut i: usize = 0;
    while i < notifiers.len()
        invariant
            i <= notifiers.len(),
            r@ == matching_indices_spec(notifiers@, sel@, i as int),
        decreases notifiers.len() - i,
    {
        if selector_matches(sel, notifiers[i].labels()) {
            r.push(i);
        }
        i += 1;
    }
    r
}

/// Whether a worker outcome asks for notification fan-out, and with which
/// selector: fan-out happens exactly on a state transition, and only when a
/// selector is configured — an absent selector means no notification is
/// wanted, not an error.
pub fn fanout_selector<'a>(
    transitioned: bool,
    match_labels: &'a Option<Vec<Label>>,
) -> (r: Option<&'a Vec<Label>>)
    ensures
        r is Some <==> (transitioned && match_labels is Some),
        r matches Some(sel) ==> match_labels matches Some(m) && sel@ == m@,
{
    if transitioned {
        match match_labels {
            Some(sel) => Some(sel),
            None => None,
        }
    } else {
        None
    }
}

/// One key/value entry of an opaque secret.
pub struct SecretEntry {
    pub key: String,
    pub value: Vec<u8>,
}

/// Why a secret value could not be resolved.
#[derive(Clone, Copy, Debug, PartialEq, Eq, Structural)]
pub enum SecretError {
    /// The secret has no entry under the requested key.
    KeyMissing,
    /// The entry's bytes are not valid UTF-8.
    NotUtf8,
}

/// The bytes stored under `key` in the first entry carrying it, when one
/// exists.
pub open spec fn find_entry_spec(entries: Seq<SecretEntry>, key: Seq<char>) -> Option<Seq<u8>>
    decreases entries.len(),
{
    if entries.len() == 0 {
        None
    } else if entries.first().key@ == key {
        Some(entries.first().value@)
    } else {
        find_entry_spec(entries.drop_first(), key)
    }
}

/// What UTF-8 decoding yields for a byte sequence: the decoded characters,
/// or nothing when the bytes are not valid UTF-8. A function of the bytes
/// alone.
pub uninterp spec fn utf8_decoding(bytes: Seq<u8>) -> Option<Seq<char>>;

/// Relies on `String::from_utf8`: whether bytes decode, and to which
/// characters, depends on the bytes alone.
#[verifier::external_body]
fn utf8_to_string(bytes: &Vec<u8>) -> (r: Option<String>)
    ensures
        r is Some <==> utf8_decoding(bytes@) is Some,
        r matches Some(s) ==> utf8_decoding(bytes@) == Some(s@),
{
    String::from_utf8(bytes.clone()).ok()
}

/// Resolves the value stored under `key` in a secret's entries as a UTF-8
/// string. Fails exactly when no entry carries the key, or when the entry's
/// bytes are not valid UTF-8.
pub fn secret_value(entries: &Vec<SecretEntry>, key: &String) -> (r: Result<String, SecretError>)
    ensures
        match find_entry_spec(entries@, key@) {
            Some(bytes) => match utf8_decoding(bytes) {
                Some(cs) => r matches Ok(s) && s@ == cs,
                None => r == Err::<String, SecretError>(SecretError::NotUtf8),
            },
            None => r == Err::<String, SecretError>(SecretError::KeyMissing),
        },
{
    let ghost full = entries@;
    proof {
        assert(entries@.subrange(0, entries@.len() as int) =~= entries@);
    }
    let mut i: usize = 0;
    while i < entries.len()
        invariant
            i <= entries.len(),
            full == entries@,
            find_entry_spec(full, key@) == find_entry_spec(
                entries@.subrange(i as int, entries@.len() as int),
                key@,
            ),
            forall|j: int| 0 <= j < i ==> entries@[j].key@ != key@,
        decreases entries.len() - i,
    {
        proof {
            let tail = entries@.subrange(i as int, entries@.len() as int);
            assert(tail.first() == entries@[i as int]);
            assert(tail.drop_first() =~= entries@.subrange(i + 1, entries@.len() as int));
        }
        if entries[i].key.eq(key) {
            return match utf8_to_string(&entries[i].value) {
                Some(s) => Ok(s),
                None => Err(SecretError::NotUtf8),
            };
        }
        i += 1;
    }
    proof {
        assert(entries@.subrange(entries@.len() as int, entries@.len() as int)
            =~= Seq::<SecretEntry>::empty());
    }
    Err(SecretError::KeyMissing)
}

} // verus!
