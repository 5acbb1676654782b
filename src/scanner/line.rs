//! Line terminators, and the lookup that runs to the end of a line.
use vstd::prelude::*;

use crate::scanner::text::{char_at, width_at};

verus! {

/// LINE SEPARATOR and PARAGRAPH SEPARATOR.
pub open spec fn unicode_line_terminator(c: u32) -> bool {
    c == 0x2028 || c == 0x2029
}

/// The characters that end a line: line feed, carriage return, and the two
/// Unicode line terminators.
pub open spec fn is_line_terminator(c: u32) -> bool {
    c == 0x0A || c == 0x0D || unicode_line_terminator(c)
}

pub fn is_unicode_line_terminator(ch: char) -> (r: bool)
    ensures
        r == unicode_line_terminator(ch as u32),
{
    ch == '\u{2028}' || ch == '\u{2029}'
}

/// How the rest of a line continues at a lead byte.
#[derive(Debug, Clone, Copy, PartialEq, Eq, Structural)]
pub enum Handler {
    /// An ASCII byte that is part of the line.
    Ascii,
    /// Line feed or carriage return: the line ends.
    NewLine,
    /// The lead byte of a character that is part of the line.
    Unicode,
    /// The lead byte shared by the Unicode line terminators.
    MaybeTerminator,
    /// A byte that no character boundary of UTF-8 holds.
    Invalid,
}

/// The line lookup table.
pub open spec fn line_entry(index: u8) -> Handler {
    if index == 0x0A || index == 0x0D {
        Handler::NewLine
    } else if index < 0x80 {
        Handler::Ascii
    } else if index == 0xE2 {
        Handler::MaybeTerminator
    } else if 0xC2 <= index <= 0xF4 {
        Handler::Unicode
    } else {
        Handler::Invalid
    }
}

pub fn lookup(index: u8) -> (r: Handler)
    ensures
        r == line_entry(index),
{
    if index == 0x0A || index == 0x0D {
        Handler::NewLine
    } else if index < 0x80 {
        Handler::Ascii
    } else if index == 0xE2 {
        Handler::MaybeTerminator
    } else if 0xC2 <= index && index <= 0xF4 {
        Handler::Unicode
    } else {
        Handler::Invalid
    }
}

} // verus!

verus! {

/// Where the line that goes on at `p` ends: at the first line terminator, which
/// stays unconsumed, or at the end of input.
pub open spec fn line_end(b: Seq<u8>, p: int) -> int
    decreases b.len() - p,
{
    if 0 <= p < b.len() && !is_line_terminator(char_at(b, p)) && 0 < width_at(b, p) <= b.len() - p {
        line_end(b, p + width_at(b, p))
    } else {
        p
    }
}

} // verus!
