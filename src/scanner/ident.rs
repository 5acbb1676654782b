//! Identifiers: their text, the classification of their characters, and the
//! lookup that continues an identifier run.
use vstd::prelude::*;

use crate::scanner::text::{char_at, width_at};
use crate::unicode::{id_continue, id_start, is_ident_continue, is_ident_start};

verus! {

/// The text of an identifier that is not a keyword.
#[derive(Debug)]
pub struct Ident<'s> {
    pub raw: &'s str,
}

impl<'s> Ident<'s> {
    pub fn new(s: &'s str) -> (r: Self)
        ensures
            r.raw == s,
    {
        Ident { raw: s }
    }
}

/// `a`-`z`, `A`-`Z`, `_` and `$`.
pub open spec fn is_ascii_ident_start(c: u32) -> bool {
    ('a' as u32 <= c <= 'z' as u32) || ('A' as u32 <= c <= 'Z' as u32) || c == '_' as u32 || c
        == '$' as u32
}

/// The ASCII identifier starts and the digits.
pub open spec fn is_ascii_ident_part(c: u32) -> bool {
    is_ascii_ident_start(c) || ('0' as u32 <= c <= '9' as u32)
}

/// A character that may begin an identifier.
pub open spec fn ident_start_char(c: char) -> bool {
    if (c as u32) < 0x80 {
        is_ascii_ident_start(c as u32)
    } else {
        id_start(c)
    }
}

/// A character that may continue an identifier: beyond ASCII, ID_Continue and
/// the two joiners U+200C and U+200D.
pub open spec fn ident_part_char(c: char) -> bool {
    if (c as u32) < 0x80 {
        is_ascii_ident_part(c as u32)
    } else {
        id_continue(c) || c as u32 == 0x200C || c as u32 == 0x200D
    }
}

pub trait Identifier {
    spec fn spec_ident_start(&self) -> bool;

    spec fn spec_ident_part(&self) -> bool;

    fn is_ident_start(&self) -> (r: bool)
        ensures
            r == self.spec_ident_start(),
    ;

    fn is_ident_part(&self) -> (r: bool)
        ensures
            r == self.spec_ident_part(),
    ;
}

impl Identifier for char {
    open spec fn spec_ident_start(&self) -> bool {
        ident_start_char(*self)
    }

    open spec fn spec_ident_part(&self) -> bool {
        ident_part_char(*self)
    }

    fn is_ident_start(&self) -> (r: bool) {
        let c = *self;
        let v = c as u32;
        if v < 0x80 {
            ('a' as u32 <= v && v <= 'z' as u32) || ('A' as u32 <= v && v <= 'Z' as u32) || v
                == '_' as u32 || v == '$' as u32
        } else {
            is_ident_start(c)
        }
    }

    fn is_ident_part(&self) -> (r: bool) {
        let c = *self;
        let v = c as u32;
        if v < 0x80 {
            ('a' as u32 <= v && v <= 'z' as u32) || ('A' as u32 <= v && v <= 'Z' as u32) || ('0'
                as u32 <= v && v <= '9' as u32) || v == '_' as u32 || v == '$' as u32
        } else {
            is_ident_continue(c) || v == 0x200C || v == 0x200D
        }
    }
}

/// How an identifier run continues at a lead byte.
#[derive(Debug, Clone, Copy, PartialEq, Eq, Structural)]
pub enum Handler {
    /// An ASCII identifier part.
    Ascii,
    /// The lead byte of a character that may continue the identifier.
    Unicode,
}

/// The identifier-part lookup table. A backslash ends the run: escapes in
/// identifiers are not supported.
pub open spec fn ident_entry(index: u8) -> Option<Handler> {
    if is_ascii_ident_part(index as u32) {
        Some(Handler::Ascii)
    } else if 0xC2 <= index <= 0xF4 {
        Some(Handler::Unicode)
    } else {
        None
    }
}

pub fn lookup(index: u8) -> (r: Option<Handler>)
    ensures
        r == ident_entry(index),
{
    let c = index as u32;
    if ('a' as u32 <= c && c <= 'z' as u32) || ('A' as u32 <= c && c <= 'Z' as u32) || ('0' as u32
        <= c && c <= '9' as u32) || c == '_' as u32 || c == '$' as u32 {
        Some(Handler::Ascii)
    } else if 0xC2 <= index && index <= 0xF4 {
        Some(Handler::Unicode)
    } else {
        None
    }
}

} // verus!

verus! {

/// Where the run of identifier parts that starts at `p` ends.
pub open spec fn ident_end(b: Seq<u8>, p: int) -> int
    decreases b.len() - p,
{
    if 0 <= p < b.len() && ident_part_char(char_at(b, p) as char) && 0 < width_at(b, p) <= b.len() - p {
        ident_end(b, p + width_at(b, p))
    } else {
        p
    }
}

} // verus!
