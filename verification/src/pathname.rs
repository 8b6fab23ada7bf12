//! The final component of a filesystem path.
//!
//! Symbol-store keys embed the file name of the published file: everything
//! after the last `/` of its path (the whole path when it has no `/`).

use vstd::prelude::*;

verus! {

/// Everything after the last `/` of `s`; `s` itself when it has no `/`.
pub open spec fn spec_file_name(s: Seq<char>) -> Seq<char>
    decreases s.len(),
{
    if s.len() == 0 {
        s
    } else if s.last() == '/' {
        Seq::empty()
    } else {
        spec_file_name(s.drop_last()).push(s.last())
    }
}

/// The suffix of `s` from `p` on is exactly `spec_file_name(s)` when a `/`
/// stands just before `p` (or `p` is the start) and none stands at or after it.
proof fn lemma_file_name_suffix(s: Seq<char>, p: int)
    requires
        0 <= p <= s.len(),
        p == 0 || s[p - 1] == '/',
        forall|j: int| p <= j < s.len() ==> s[j] != '/',
    ensures
        spec_file_name(s) =~= s.subrange(p, s.len() as int),
    decreases s.len(),
{
    if s.len() == 0 {
        // both sides are empty
    } else if s.last() == '/' {
        // no slash stands at or after p, so p lies past the final slash:
        // p == s.len(), and both sides are empty
        assert(p == s.len());
    } else if p < s.len() {
        lemma_file_name_suffix(s.drop_last(), p);
        assert(s.drop_last().subrange(p, s.len() - 1).push(s.last()) =~= s.subrange(
            p,
            s.len() as int,
        ));
    } else {
        // p == s.len() > 0 would put a slash at s.last(), already excluded
        assert(s[p - 1] == '/');
    }
}

/// The final path component, as a fresh string.
pub fn file_name(path: &str) -> (res: String)
    ensures
        res@ == spec_file_name(path@),
{
    let len = path.unicode_len();
    let mut start: usize = 0;
    let mut i: usize = 0;
    while i < len
        invariant
            len == path@.len(),
            0 <= start <= i <= len,
            start == 0 || path@[start - 1] == '/',
            forall|j: int| start <= j < i ==> path@[j] != '/',
        decreases len - i,
    {
        if path.get_char(i) == '/' {
            start = i + 1;
        }
        i = i + 1;
    }
    let tail = path.substring_char(start, len);
    proof {
        lemma_file_name_suffix(path@, start as int);
    }
    tail.to_owned()
}

} // verus!
