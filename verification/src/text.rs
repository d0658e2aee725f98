//! Searching source text.

use vstd::prelude::*;
use vstd::string::StringSliceAdditionalSpecFns;

verus! {

/// Whether `needle` occurs in `hay` at position `at`.
pub open spec fn occurs_at(hay: Seq<u8>, needle: Seq<u8>, at: int) -> bool {
    0 <= at && at + needle.len() <= hay.len() && hay.subrange(at, at + needle.len()) == needle
}

/// Whether `needle` occurs somewhere in `hay`.
pub open spec fn occurs(hay: Seq<u8>, needle: Seq<u8>) -> bool {
    exists|at: int| occurs_at(hay, needle, at)
}

/// Whether the first `upto` bytes of `needle` stand in `hay` at `at`.
spec fn agree(hay: Seq<u8>, needle: Seq<u8>, at: int, upto: int) -> bool {
    forall|k: int| 0 <= k < upto ==> hay[at + k] == needle[k]
}

/// The position of the first occurrence of `needle` in `hay`.
pub fn find(hay: &[u8], needle: &[u8]) -> (r: Option<usize>)
    ensures
        r is Some <==> occurs(hay@, needle@),
        r matches Some(at) ==> occurs_at(hay@, needle@, at as int) && forall|b: int|
            0 <= b < at ==> !occurs_at(hay@, needle@, b),
{
    let n: usize = hay.len();
    let m: usize = needle.len();
    if m > n {
        assert forall|at: int| !occurs_at(hay@, needle@, at) by {}
        return None;
    }
    let last: usize = n - m;
    let mut at: usize = 0;
    while at <= last
        invariant
            n == hay@.len(),
            m == needle@.len(),
            m <= n,
            last == n - m,
            at <= last + 1,
            forall|b: int| 0 <= b < at ==> !occurs_at(hay@, needle@, b),
        decreases last + 1 - at,
    {
        let mut k: usize = 0;
        while k < m && hay[at + k] == needle[k]
            invariant
                n == hay@.len(),
                m == needle@.len(),
                at + m <= n,
                k <= m,
                agree(hay@, needle@, at as int, k as int),
            decreases m - k,
        {
            k = k + 1;
        }
        if k == m {
            assert(hay@.subrange(at as int, at + m) =~= needle@);
            assert(occurs_at(hay@, needle@, at as int));
            return Some(at);
        }
        assert(!occurs_at(hay@, needle@, at as int)) by {
            if occurs_at(hay@, needle@, at as int) {
                assert(hay@.subrange(at as int, at + m)[k as int] == needle@[k as int]);
            }
        }
        at = at + 1;
    }
    assert forall|b: int| !occurs_at(hay@, needle@, b) by {}
    None
}

/// The word whose presence in a conditional's source text marks the
/// conditional as a debug-only assertion.
pub open spec fn debug_marker() -> Seq<u8> {
    "debug".spec_bytes()
}

/// Whether source text reads as a debug-only assertion: its bytes hold the
/// marker word.
pub open spec fn is_debug_text(text: Seq<char>) -> bool {
    occurs(vstd::utf8::encode_utf8(text), debug_marker())
}

/// Whether a conditional with this source text is a debug-only assertion.
pub fn mentions_debug(text: &str) -> (r: bool)
    ensures
        r == is_debug_text(text@),
{
    find(text.as_bytes(), "debug".as_bytes()).is_some()
}

} // verus!
