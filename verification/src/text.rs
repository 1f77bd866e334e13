//! Small string functions used when building worker URLs: trimming trailing
//! slashes, taking the last `/`-separated segment, and ASCII lowercasing.

use vstd::prelude::*;

verus! {

/// `s` without its trailing `/` characters.
pub open spec fn trim_trailing_slashes(s: Seq<char>) -> Seq<char>
    decreases s.len(),
{
    if s.len() > 0 && s.last() == '/' {
        trim_trailing_slashes(s.drop_last())
    } else {
        s
    }
}

/// The suffix of `s` after its last `/`; all of `s` when it has none.
pub open spec fn last_segment(s: Seq<char>) -> Seq<char>
    decreases s.len(),
{
    if s.len() == 0 {
        s
    } else if s.last() == '/' {
        Seq::empty()
    } else {
        last_segment(s.drop_last()).push(s.last())
    }
}

/// `c` with an ASCII capital letter mapped to its small form; any other
/// character unchanged.
pub open spec fn lower_char(c: char) -> char {
    if 'A' <= c && c <= 'Z' {
        ((c as u8) + 32) as char
    } else {
        c
    }
}

/// `s` with every ASCII capital letter lowered.
pub open spec fn lower_seq(s: Seq<char>) -> Seq<char> {
    s.map_values(|c: char| lower_char(c))
}

/// A prefix of `s` that ends right before a run of trailing slashes is the
/// trimmed form of `s`.
proof fn lemma_trim_prefix(s: Seq<char>, i: int)
    requires
        0 <= i <= s.len(),
        forall|j: int| i <= j < s.len() ==> s[j] == '/',
        i > 0 ==> s[i - 1] != '/',
    ensures
        trim_trailing_slashes(s) == s.subrange(0, i),
    decreases s.len(),
{
    if s.len() == 0 {
        assert(s.subrange(0, 0) =~= s);
    } else if i == s.len() {
        if s.last() == '/' {
            lemma_trim_prefix(s.drop_last(), i - 1);
            assert(s.drop_last() =~= s.subrange(0, s.len() - 1));
            assert(s.drop_last().subrange(0, i - 1) =~= s.subrange(0, i - 1));
            assert(trim_trailing_slashes(s) == s.subrange(0, i - 1));
            assert(i - 1 == i || s[i - 1] == '/');
            assert(s.subrange(0, i) =~= s);
            assert(false);
        } else {
            assert(trim_trailing_slashes(s) == s);
            assert(s.subrange(0, i) =~= s);
        }
    } else {
        assert(s.last() == '/');
        lemma_trim_prefix(s.drop_last(), i);
        assert(s.drop_last() =~= s.subrange(0, s.len() - 1));
        assert(s.drop_last().subrange(0, i) =~= s.subrange(0, i));
    }
}

/// A suffix of `s` that contains no `/` and starts right after a `/` (or at
/// the start of `s`) is the last segment of `s`.
proof fn lemma_last_segment_suffix(s: Seq<char>, i: int)
    requires
        0 <= i <= s.len(),
        forall|j: int| i <= j < s.len() ==> s[j] != '/',
        i > 0 ==> s[i - 1] == '/',
    ensures
        last_segment(s) == s.subrange(i, s.len() as int),
    decreases s.len(),
{
    if s.len() == 0 {
        assert(s.subrange(0, 0) =~= s);
    } else if i == s.len() {
        if s.last() == '/' {
            assert(s.subrange(i, s.len() as int) =~= Seq::<char>::empty());
        } else {
            assert(i > 0 && s[i - 1] == s.last());
            assert(false);
        }
    } else {
        assert(s.last() != '/');
        lemma_last_segment_suffix(s.drop_last(), i);
        assert(s.drop_last() =~= s.subrange(0, s.len() - 1));
        assert(s.drop_last().subrange(i, s.len() - 1) =~= s.subrange(i, s.len() - 1));
        assert(s.subrange(i, s.len() - 1).push(s.last()) =~= s.subrange(i, s.len() as int));
    }
}

/// Removes every trailing `/` from `base`.
pub fn trim_trailing_slashes_exec(base: &str) -> (r: String)
    ensures
        r@ == trim_trailing_slashes(base@),
{
    let n = base.unicode_len();
    let mut i: usize = n;
    while i > 0 && base.get_char(i - 1) == '/'
        invariant
            i <= n,
            n == base@.len(),
            forall|j: int| i <= j < n ==> base@[j] == '/',
        decreases i,
    {
        i -= 1;
    }
    proof {
        lemma_trim_prefix(base@, i as int);
    }
    let prefix = base.substring_char(0, i);
    prefix.to_owned()
}

/// The part of `s` after its last `/`; all of `s` when it has none.
pub fn last_segment_exec(s: &str) -> (r: String)
    ensures
        r@ == last_segment(s@),
{
    let n = s.unicode_len();
    let mut i: usize = n;
    while i > 0 && s.get_char(i - 1) != '/'
        invariant
            i <= n,
            n == s@.len(),
            forall|j: int| i <= j < n ==> s@[j] != '/',
        decreases i,
    {
        i -= 1;
    }
    proof {
        lemma_last_segment_suffix(s@, i as int);
    }
    let suffix = s.substring_char(i, n);
    suffix.to_owned()
}

} // verus!
