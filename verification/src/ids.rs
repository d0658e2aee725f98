//! Identities of callables and places in the source.

use vstd::prelude::*;

verus! {

/// Identifies a function or method for the length of one analysis run.
///
/// The number is opaque: the analysis only ever compares identifiers.
#[derive(Clone, Copy, Debug, PartialEq, Eq, Structural, Hash)]
pub struct CallableId(pub u64);

/// A file and a byte range in it. Carried along for diagnostics only.
#[derive(Clone, Copy, Debug, PartialEq, Eq, Structural, Hash)]
pub struct SourceLocation {
    pub file: u32,
    pub lo: u32,
    pub hi: u32,
}

impl SourceLocation {
    /// The location of something that has no place in the analysed sources.
    pub open spec fn spec_unknown() -> SourceLocation {
        SourceLocation { file: 0, lo: 0, hi: 0 }
    }

    #[verifier::when_used_as_spec(spec_unknown)]
    pub fn unknown() -> (r: SourceLocation)
        ensures
            r == Self::spec_unknown(),
    {
        SourceLocation { file: 0, lo: 0, hi: 0 }
    }
}

/// Whether two optional callers are the same.
pub fn same_caller(a: Option<CallableId>, b: Option<CallableId>) -> (r: bool)
    ensures
        r == (a == b),
{
    match (a, b) {
        (None, None) => true,
        (Some(x), Some(y)) => x == y,
        _ => false,
    }
}

} // verus!
