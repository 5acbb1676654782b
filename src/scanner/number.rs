//! The grammars of decimal literals and of binary, octal and hexadecimal integers.
use vstd::prelude::*;

use crate::error::{info, info_quoted, Result};
use crate::scanner::digit::{radix_digit, valid_radix};
use crate::scanner::text::{byte_is, char_text, is_ascii_digit};
use crate::scanner::Scanner;

verus! {

/// How a numeric scan ends: at `end`, with or without the big-integer suffix,
/// or with the message `msg` with the cursor at `at`.
pub enum NumScan {
    Done { end: int, big_int: bool },
    Fail { msg: Seq<char>, at: int },
}

pub open spec fn separator_message() -> Seq<char> {
    "Invalid Numeric separator"@
}

pub open spec fn exponent_message() -> Seq<char> {
    "Invalid DecimalLiteral ExponentPart"@
}

pub open spec fn big_int_message() -> Seq<char> {
    "Invalid BigInt suffix after a decimal point or exponent"@
}

/// The start of the message for a missing digit of the radix.
pub open spec fn radix_prefix(radix: u8) -> Seq<char> {
    if radix == 2 {
        "Invalid 2 radix digit '"@
    } else if radix == 8 {
        "Invalid 8 radix digit '"@
    } else {
        "Invalid 16 radix digit '"@
    }
}

/// The rest of a decimal literal from `q`. `dot`: a decimal point may still
/// come; `exp`: an exponent part may still come. A separator must follow a
/// digit; an exponent needs a digit after its optional sign; the suffix `n`
/// is taken only when neither a point nor an exponent was.
pub open spec fn decimal_scan(b: Seq<u8>, q: int, dot: bool, exp: bool) -> NumScan
    decreases b.len() - q,
{
    if !(0 <= q < b.len()) {
        NumScan::Done { end: q, big_int: false }
    } else if is_ascii_digit(b[q]) {
        decimal_scan(b, q + 1, dot, exp)
    } else if b[q] == '_' as u8 {
        if !(q > 0 && is_ascii_digit(b[q - 1])) {
            NumScan::Fail { msg: separator_message(), at: q }
        } else if q + 1 < b.len() && is_ascii_digit(b[q + 1]) {
            decimal_scan(b, q + 2, dot, exp)
        } else {
            NumScan::Fail { msg: separator_message(), at: q + 1 }
        }
    } else if b[q] == '.' as u8 && dot {
        decimal_scan(b, q + 1, false, exp)
    } else if (b[q] == 'e' as u8 || b[q] == 'E' as u8) && exp {
        let d = if byte_is(b, q + 1, '+' as u8) || byte_is(b, q + 1, '-' as u8) {
            q + 2
        } else {
            q + 1
        };
        if d < b.len() && is_ascii_digit(b[d]) {
            decimal_scan(b, d + 1, dot, false)
        } else {
            NumScan::Fail { msg: exponent_message(), at: d }
        }
    } else if b[q] == 'n' as u8 {
        if dot && exp {
            NumScan::Done { end: q + 1, big_int: true }
        } else {
            NumScan::Fail { msg: big_int_message(), at: q }
        }
    } else {
        NumScan::Done { end: q, big_int: false }
    }
}

/// The digits of a radix integer after its first one: digits, a separator
/// between two digits, and an optional final `n`.
pub open spec fn radix_digits(b: Seq<u8>, q: int, radix: u8) -> NumScan
    decreases b.len() - q,
{
    if 0 <= q < b.len() && radix_digit(radix, b[q]) {
        radix_digits(b, q + 1, radix)
    } else if byte_is(b, q, '_' as u8) {
        if q + 1 < b.len() && radix_digit(radix, b[q + 1]) {
            radix_digits(b, q + 2, radix)
        } else {
            NumScan::Fail { msg: separator_message(), at: q + 1 }
        }
    } else if byte_is(b, q, 'n' as u8) {
        NumScan::Done { end: q + 1, big_int: true }
    } else {
        NumScan::Done { end: q, big_int: false }
    }
}

/// A radix integer from `q`, where at least one digit must stand.
pub open spec fn radix_scan(b: Seq<u8>, q: int, radix: u8) -> NumScan {
    if 0 <= q < b.len() && radix_digit(radix, b[q]) {
        radix_digits(b, q + 1, radix)
    } else {
        NumScan::Fail { msg: radix_prefix(radix) + char_text(b, q) + "'"@, at: q }
    }
}

/// The scanner's result and position agree with a numeric scan.
pub open spec fn num_outcome(r: Result<bool>, s: NumScan, pos: int) -> bool {
    match (r, s) {
        (Ok(big), NumScan::Done { end, big_int }) => big == big_int && pos == end,
        (Err(e), NumScan::Fail { msg, at }) => e.is_info(msg) && pos == at,
        _ => false,
    }
}

impl<'s> Scanner<'s> {
    /// Scans the rest of a decimal literal; `DOT` tells whether a decimal point
    /// may still come. Returns whether the big-integer suffix was taken.
    pub fn scan_decimal<const DOT: bool>(&mut self) -> (r: Result<bool>)
        requires
            old(self).wf(),
            old(self).pos() > 0,
        ensures
            final(self).advanced_from(old(self)),
            num_outcome(r, decimal_scan(old(self).text(), old(self).pos(), DOT, true), final(self).pos()),
    {
        let mut dot = DOT;
        let mut exp = true;
        loop
            invariant
                self.advanced_from(old(self)),
                self.pos() > 0,
                decimal_scan(self.text(), self.pos(), dot, exp) == decimal_scan(
                    old(self).text(),
                    old(self).pos(),
                    DOT,
                    true,
                ),
            decreases self.remaining(),
        {
            if self.is_empty() {
                return Ok(false);
            }
            let c = self.cur();
            if '0' as u8 <= c && c <= '9' as u8 {
                self.bump();
            } else if c == '_' as u8 {
                let p = self.prev();
                if !('0' as u8 <= p && p <= '9' as u8) {
                    return Err(info("Invalid Numeric separator"));
                }
                self.bump();
                if !self.is_empty() && '0' as u8 <= self.cur() && self.cur() <= '9' as u8 {
                    self.bump();
                } else {
                    return Err(info("Invalid Numeric separator"));
                }
            } else if c == '.' as u8 && dot {
                dot = false;
                self.bump();
            } else if (c == 'e' as u8 || c == 'E' as u8) && exp {
                self.bump();
                if !self.eat('+' as u8) {
                    self.eat('-' as u8);
                }
                if !self.is_empty() && '0' as u8 <= self.cur() && self.cur() <= '9' as u8 {
                    exp = false;
                    self.bump();
                } else {
                    return Err(info("Invalid DecimalLiteral ExponentPart"));
                }
            } else if c == 'n' as u8 {
                if dot && exp {
                    self.bump();
                    return Ok(true);
                } else {
                    return Err(info("Invalid BigInt suffix after a decimal point or exponent"));
                }
            } else {
                return Ok(false);
            }
        }
    }

    /// Scans a binary, octal or hexadecimal integer after its prefix. Returns
    /// whether the big-integer suffix was taken.
    pub fn scan_radix_int(&mut self, radix: u8) -> (r: Result<bool>)
        requires
            old(self).wf(),
            valid_radix(radix),
        ensures
            final(self).advanced_from(old(self)),
            num_outcome(r, radix_scan(old(self).text(), old(self).pos(), radix), final(self).pos()),
    {
        if self.is_digit(radix) {
            self.bump();
        } else {
            let found = self.cur_str();
            let prefix = if radix == 2 {
                "Invalid 2 radix digit '"
            } else if radix == 8 {
                "Invalid 8 radix digit '"
            } else {
                "Invalid 16 radix digit '"
            };
            return Err(info_quoted(prefix, found));
        }
        loop
            invariant
                self.advanced_from(old(self)),
                valid_radix(radix),
                radix_digits(self.text(), self.pos(), radix) == radix_scan(
                    old(self).text(),
                    old(self).pos(),
                    radix,
                ),
            decreases self.remaining(),
        {
            if self.is_digit(radix) {
                self.bump();
            } else if self.eat('_' as u8) {
                if self.is_digit(radix) {
                    self.bump();
                } else {
                    return Err(info("Invalid Numeric separator"));
                }
            } else {
                return Ok(self.eat('n' as u8));
            }
        }
    }
}

} // verus!
