//! Whitespace: the classification of its characters and the lookup by lead byte.
use vstd::prelude::*;

use crate::scanner::line::unicode_line_terminator;
use crate::scanner::text::{char_at, width_at};

verus! {

/// The Unicode space separators that count as whitespace.
pub open spec fn unicode_space(c: u32) -> bool {
    c == 0x00A0 || c == 0x1680 || (0x2000 <= c <= 0x200A) || c == 0x202F || c == 0x205F || c
        == 0x3000 || c == 0xFEFF
}

/// Every character that a whitespace run consumes: tab, line feed, vertical tab,
/// form feed, carriage return, space, the Unicode spaces and line terminators.
pub open spec fn is_space_char(c: u32) -> bool {
    (0x09 <= c <= 0x0D) || c == 0x20 || unicode_space(c) || unicode_line_terminator(c)
}

pub fn is_unicode_space(ch: char) -> (r: bool)
    ensures
        r == unicode_space(ch as u32),
{
    let c = ch as u32;
    c == 0x00A0 || c == 0x1680 || (0x2000 <= c && c <= 0x200A) || c == 0x202F || c == 0x205F
        || c == 0x3000 || c == 0xFEFF
}

/// How a whitespace run continues at a lead byte.
#[derive(Debug, Clone, Copy, PartialEq, Eq, Structural)]
pub enum Handler {
    /// Tab, vertical tab, form feed or space.
    Space,
    /// Line feed or carriage return.
    NewLine,
    /// The lead byte of a character that may be a Unicode space.
    Unicode,
}

/// The whitespace lookup table.
pub open spec fn space_entry(index: u8) -> Option<Handler> {
    if index == 0x09 || index == 0x0B || index == 0x0C || index == 0x20 {
        Some(Handler::Space)
    } else if index == 0x0A || index == 0x0D {
        Some(Handler::NewLine)
    } else if index == 0xC2 || index == 0xE1 || index == 0xE2 || index == 0xE3 || index == 0xEF {
        Some(Handler::Unicode)
    } else {
        None
    }
}

/// The handler for a lead byte; none where the byte cannot start whitespace.
pub fn lookup(index: u8) -> (r: Option<Handler>)
    ensures
        r == space_entry(index),
{
    match index {
        0x09 | 0x0B | 0x0C | 0x20 => Some(Handler::Space),
        0x0A | 0x0D => Some(Handler::NewLine),
        0xC2 | 0xE1 | 0xE2 | 0xE3 | 0xEF => Some(Handler::Unicode),
        _ => None,
    }
}

} // verus!

verus! {

/// Where the whitespace run that starts at `p` ends.
pub open spec fn space_end(b: Seq<u8>, p: int) -> int
    decreases b.len() - p,
{
    if 0 <= p < b.len() && is_space_char(char_at(b, p)) && 0 < width_at(b, p) <= b.len() - p {
        space_end(b, p + width_at(b, p))
    } else {
        p
    }
}

} // verus!
