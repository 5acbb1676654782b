//! Digit classes of the numeric literals.
use vstd::prelude::*;

use crate::scanner::text::is_ascii_digit;
use crate::scanner::Scanner;

verus! {

pub open spec fn is_hex_digit_byte(c: u8) -> bool {
    is_ascii_digit(c) || ('a' as u8 <= c <= 'f' as u8) || ('A' as u8 <= c <= 'F' as u8)
}

/// A digit of radix 2, 8 or 16.
pub open spec fn radix_digit(radix: u8, c: u8) -> bool {
    if radix == 2 {
        '0' as u8 <= c <= '1' as u8
    } else if radix == 8 {
        '0' as u8 <= c <= '7' as u8
    } else {
        is_hex_digit_byte(c)
    }
}

pub open spec fn valid_radix(radix: u8) -> bool {
    radix == 2 || radix == 8 || radix == 16
}

impl<'s> Scanner<'s> {
    /// The cursor is at a digit of the given radix (never at the end of input).
    pub open spec fn at_digit(&self, radix: u8) -> bool {
        self.pos() < self.text().len() && radix_digit(radix, self.text()[self.pos()])
    }

    pub fn is_binary_digit(&self) -> (r: bool)
        requires
            self.wf(),
        ensures
            r == self.at_digit(2),
    {
        !self.is_empty() && '0' as u8 <= self.cur() && self.cur() <= '1' as u8
    }

    pub fn is_octal_digit(&self) -> (r: bool)
        requires
            self.wf(),
        ensures
            r == self.at_digit(8),
    {
        !self.is_empty() && '0' as u8 <= self.cur() && self.cur() <= '7' as u8
    }

    pub fn is_hex_digit(&self) -> (r: bool)
        requires
            self.wf(),
        ensures
            r == self.at_digit(16),
    {
        if self.is_empty() {
            return false;
        }
        let c = self.cur();
        ('0' as u8 <= c && c <= '9' as u8) || ('a' as u8 <= c && c <= 'f' as u8) || ('A' as u8 <= c
            && c <= 'F' as u8)
    }

    pub fn is_digit(&self, radix: u8) -> (r: bool)
        requires
            self.wf(),
            valid_radix(radix),
        ensures
            r == self.at_digit(radix),
    {
        if radix == 2 {
            self.is_binary_digit()
        } else if radix == 8 {
            self.is_octal_digit()
        } else {
            self.is_hex_digit()
        }
    }
}

} // verus!
