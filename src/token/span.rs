//! Source positions of tokens.
use vstd::prelude::*;

verus! {

/// A byte offset into the source.
pub type Pos = u32;

/// A syntax-context marker that a parser may use to tell contexts apart.
pub type Tier = u32;

/// The byte range `[lo, hi)` of a token, with its context tier.
#[derive(Debug, Clone, Copy, PartialEq, Eq, Structural)]
pub struct Span {
    pub lo: Pos,
    pub hi: Pos,
    pub tier: Tier,
}

impl Default for Span {
    /// The dummy span `{0, 0, 0}`.
    fn default() -> (r: Self)
        ensures
            r.lo == 0 && r.hi == 0 && r.tier == 0,
    {
        Span { lo: 0, hi: 0, tier: 0 }
    }
}

} // verus!
