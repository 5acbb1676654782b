//! Unicode escape sequences: `\u` followed by four hex digits or by a braced
//! code point.
use vstd::prelude::*;
use vstd::string::StringSliceAdditionalSpecFns;
use vstd::utf8::*;

use crate::error::{info, info_quoted, Error, Result};
use crate::scanner::decode_char::to_char;
use crate::scanner::digit::is_hex_digit_byte;
use crate::scanner::text::{byte_is, char_text};
use crate::scanner::Scanner;

verus! {

broadcast use vstd::utf8::group_utf8_lib;

pub open spec fn hex_digit_value(c: u8) -> nat {
    if '0' as u8 <= c <= '9' as u8 {
        (c - '0' as u8) as nat
    } else if 'a' as u8 <= c <= 'f' as u8 {
        (c - 'a' as u8 + 10) as nat
    } else {
        (c - 'A' as u8 + 10) as nat
    }
}

/// The number that a run of hex digits writes.
pub open spec fn hex_value(d: Seq<u8>) -> nat
    decreases d.len(),
{
    if d.len() == 0 {
        0
    } else {
        hex_value(d.drop_last()) * 16 + hex_digit_value(d.last())
    }
}

pub open spec fn all_hex(d: Seq<u8>) -> bool {
    forall|i: int| 0 <= i < d.len() ==> is_hex_digit_byte(#[trigger] d[i])
}

/// Relies on `u32::from_str_radix` with radix 16: on a string of hex digits it
/// fails when the string is empty or the number exceeds `u32::MAX`, and
/// otherwise returns the number.
#[verifier::external_body]
fn parse_hex(s: &str) -> (r: std::result::Result<u32, std::num::ParseIntError>)
    requires
        all_hex(s.spec_bytes()),
    ensures
        match r {
            Ok(v) => s.spec_bytes().len() > 0 && v as nat == hex_value(s.spec_bytes()),
            Err(_) => s.spec_bytes().len() == 0 || hex_value(s.spec_bytes()) > u32::MAX,
        },
{
    u32::from_str_radix(s, 16)
}

/// The first index at or after `q` that does not hold a hex digit.
pub open spec fn hex_end(b: Seq<u8>, q: int) -> int
    decreases b.len() - q,
{
    if 0 <= q < b.len() && is_hex_digit_byte(b[q]) {
        hex_end(b, q + 1)
    } else {
        q
    }
}

/// How a Unicode escape scan ends.
pub enum EscapeScan {
    Char { value: u32, end: int },
    Info { msg: Seq<char>, at: int },
    ParseInt { at: int },
    CharConversion { at: int },
}

pub open spec fn hex_digit_prefix() -> Seq<char> {
    "Invalid escape unicode HexDigit '"@
}

pub open spec fn code_point_prefix() -> Seq<char> {
    "Invalid escape unicode CodePoint '"@
}

pub open spec fn unterminated_escape_message() -> Seq<char> {
    "Unterminated escape unicode CodePoint"@
}

/// `{` CodePoint `}` with the digits starting at `q`: hex digits up to `}`,
/// whose number must be at most 0x10FFFF and a Unicode scalar value.
pub open spec fn braced_escape(b: Seq<u8>, q: int) -> EscapeScan {
    let e = hex_end(b, q);
    let digits = b.subrange(q, e);
    if e >= b.len() {
        EscapeScan::Info { msg: unterminated_escape_message(), at: e }
    } else if b[e] != '}' as u8 {
        EscapeScan::Info { msg: hex_digit_prefix() + char_text(b, e) + "'"@, at: e }
    } else if e == q || hex_value(digits) > u32::MAX {
        EscapeScan::ParseInt { at: e }
    } else if hex_value(digits) > 0x10FFFF {
        EscapeScan::Info { msg: code_point_prefix() + decode_utf8(digits) + "'"@, at: e }
    } else if !is_scalar(hex_value(digits) as u32) {
        EscapeScan::CharConversion { at: e + 1 }
    } else {
        EscapeScan::Char { value: hex_value(digits) as u32, end: e + 1 }
    }
}

/// Exactly four hex digits from `q`, whose number must be a Unicode scalar value.
pub open spec fn hex4_escape(b: Seq<u8>, q: int) -> EscapeScan {
    let e = hex_end(b, q);
    if e < q + 4 {
        EscapeScan::Info { msg: hex_digit_prefix() + char_text(b, e) + "'"@, at: e }
    } else if !is_scalar(hex_value(b.subrange(q, q + 4)) as u32) {
        EscapeScan::CharConversion { at: q + 4 }
    } else {
        EscapeScan::Char { value: hex_value(b.subrange(q, q + 4)) as u32, end: q + 4 }
    }
}

/// The escape whose text starts at `q`, just after `\u`.
pub open spec fn escape_scan(b: Seq<u8>, q: int) -> EscapeScan {
    if byte_is(b, q, '{' as u8) {
        braced_escape(b, q + 1)
    } else {
        hex4_escape(b, q)
    }
}

pub open spec fn escape_outcome(r: Result<char>, s: EscapeScan, pos: int) -> bool {
    match (r, s) {
        (Ok(c), EscapeScan::Char { value, end }) => c as u32 == value && pos == end,
        (Err(e), EscapeScan::Info { msg, at }) => e.is_info(msg) && pos == at,
        (Err(Error::ParseInt(_)), EscapeScan::ParseInt { at }) => pos == at,
        (Err(Error::CharTryFrom(_)), EscapeScan::CharConversion { at }) => pos == at,
        _ => false,
    }
}

proof fn lemma_hex_end_ge(b: Seq<u8>, q: int)
    requires
        0 <= q <= b.len(),
    ensures
        q <= hex_end(b, q) <= b.len(),
    decreases b.len() - q,
{
    if q < b.len() {
        lemma_hex_end_ge(b, q + 1);
    }
}

pub open spec fn pow16(n: nat) -> nat
    decreases n,
{
    if n == 0 {
        1
    } else {
        16 * pow16((n - 1) as nat)
    }
}

proof fn lemma_hex_value_lt(d: Seq<u8>)
    requires
        all_hex(d),
    ensures
        hex_value(d) < pow16(d.len()),
    decreases d.len(),
{
    if d.len() > 0 {
        let init = d.drop_last();
        assert(all_hex(init));
        lemma_hex_value_lt(init);
        assert(is_hex_digit_byte(d[d.len() - 1]));
        let h = hex_value(init);
        let v = hex_digit_value(d.last());
        let p = pow16(init.len());
        assert(v < 16);
        assert(h * 16 + v < 16 * p) by (nonlinear_arith)
            requires
                h < p,
                v < 16,
        ;
    }
}

impl<'s> Scanner<'s> {
    /// Scans a Unicode escape after its `\u`: a braced code point or four hex
    /// digits, and returns the character it denotes.
    pub fn scan_escape_unicode(&mut self) -> (r: Result<char>)
        requires
            old(self).wf(),
        ensures
            final(self).advanced_from(old(self)),
            escape_outcome(r, escape_scan(old(self).text(), old(self).pos()), final(self).pos()),
    {
        if self.eat('{' as u8) {
            let start = self.position();
            loop
                invariant_except_break
                    self.advanced_from(old(self)),
                    start == old(self).pos() + 1,
                    byte_is(old(self).text(), old(self).pos(), '{' as u8),
                    start <= self.pos(),
                    is_char_boundary(self.text(), start as int),
                    hex_end(self.text(), self.pos()) == hex_end(self.text(), start as int),
                    all_hex(self.text().subrange(start as int, self.pos())),
                ensures
                    self.advanced_from(old(self)),
                    start == old(self).pos() + 1,
                    byte_is(old(self).text(), old(self).pos(), '{' as u8),
                    start <= self.pos() < self.text().len(),
                    is_char_boundary(self.text(), start as int),
                    hex_end(self.text(), start as int) == self.pos(),
                    self.text()[self.pos()] == '}' as u8,
                    all_hex(self.text().subrange(start as int, self.pos())),
                decreases self.remaining(),
            {
                if self.is_empty() {
                    return Err(info("Unterminated escape unicode CodePoint"));
                }
                if self.cur() == '}' as u8 {
                    break;
                }
                if self.is_hex_digit() {
                    proof {
                        let t = self.text();
                        assert(t.subrange(start as int, self.pos() + 1) =~= t.subrange(
                            start as int,
                            self.pos(),
                        ).push(t[self.pos()]));
                    }
                    self.bump();
                } else {
                    let found = self.cur_str();
                    return Err(info_quoted("Invalid escape unicode HexDigit '", found));
                }
            }
            let code_point = self.sub_str(start, self.position());
            let value = match parse_hex(code_point) {
                Ok(v) => v,
                Err(e) => return Err(Error::ParseInt(e)),
            };
            if value > 0x10FFFF {
                return Err(info_quoted("Invalid escape unicode CodePoint '", code_point));
            }
            self.bump();
            match to_char(value) {
                Ok(c) => Ok(c),
                Err(e) => Err(Error::CharTryFrom(e)),
            }
        } else {
            let start = self.position();
            let mut i: usize = 0;
            while i < 4
                invariant
                    self.advanced_from(old(self)),
                    start == old(self).pos(),
                    !byte_is(old(self).text(), old(self).pos(), '{' as u8),
                    self.pos() == start + i,
                    i <= 4,
                    is_char_boundary(self.text(), start as int),
                    hex_end(self.text(), self.pos()) == hex_end(self.text(), start as int),
                    all_hex(self.text().subrange(start as int, self.pos())),
                decreases 4 - i,
            {
                if self.is_hex_digit() {
                    proof {
                        let t = self.text();
                        assert(t.subrange(start as int, self.pos() + 1) =~= t.subrange(
                            start as int,
                            self.pos(),
                        ).push(t[self.pos()]));
                    }
                    self.bump();
                    i = i + 1;
                } else {
                    let found = self.cur_str();
                    return Err(info_quoted("Invalid escape unicode HexDigit '", found));
                }
            }
            let code_point = self.sub_str(start, self.position());
            proof {
                lemma_hex_end_ge(self.text(), self.pos());
                lemma_hex_value_lt(code_point.spec_bytes());
                assert(pow16(4) == 0x10000) by {
                    reveal_with_fuel(pow16, 5);
                }
            }
            let value = match parse_hex(code_point) {
                Ok(v) => v,
                Err(e) => return Err(Error::ParseInt(e)),
            };
            match to_char(value) {
                Ok(c) => Ok(c),
                Err(e) => Err(Error::CharTryFrom(e)),
            }
        }
    }
}

} // verus!
