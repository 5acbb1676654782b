//! Comments, holding the text between their delimiters.
use vstd::prelude::*;

use crate::scanner::text::{byte_is, width_at};
use crate::scanner::unit::{Step, UnitView};

verus! {

#[derive(Debug)]
pub enum Comment<'s> {
    /// `// ...` up to the end of the line.
    LineComment(&'s str),
    /// `/* ... */`, possibly over several lines.
    BlockComment(&'s str),
}

} // verus!

verus! {

/// Where the first `*/` at or after `q` starts, stepping by characters; none
/// when the input ends first.
pub open spec fn block_end(b: Seq<u8>, q: int) -> Option<int>
    decreases b.len() - q,
{
    if !(0 <= q < b.len()) {
        None
    } else if b[q] == '*' as u8 && byte_is(b, q + 1, '/' as u8) {
        Some(q)
    } else if 0 < width_at(b, q) <= b.len() - q {
        block_end(b, q + width_at(b, q))
    } else {
        None
    }
}

pub open spec fn unterminated_message() -> Seq<char> {
    "Unterminated block comment"@
}

/// A block comment whose text starts at `q`, just after `/*`.
pub open spec fn block_step(b: Seq<u8>, q: int) -> Step {
    match block_end(b, q) {
        Some(e) => Step::Unit { unit: UnitView::BlockComment(b.subrange(q, e)), end: e + 2 },
        None => Step::Fail { msg: unterminated_message(), at: b.len() as int },
    }
}

} // verus!
