//! Decoding the character at the cursor straight from its UTF-8 bytes.
use vstd::prelude::*;
use vstd::utf8::*;

use crate::scanner::text::{char_at, lemma_char_step, utf8_width, width_at};
use crate::scanner::Scanner;

verus! {

/// Relies on `<char as TryFrom<u32>>::try_from`, which accepts exactly the
/// Unicode scalar values and keeps the value.
#[verifier::external_body]
pub(crate) fn to_char(v: u32) -> (r: Result<char, std::char::CharTryFromError>)
    ensures
        match r {
            Ok(c) => is_scalar(v) && c as u32 == v,
            Err(_) => !is_scalar(v),
        },
{
    char::try_from(v)
}

impl<'s> Scanner<'s> {
    /// The character at the cursor and the number of bytes it takes.
    pub fn decode_char(&self) -> (r: (char, usize))
        requires
            self.wf(),
            self.pos() < self.text().len(),
        ensures
            r.0 as u32 == char_at(self.text(), self.pos()),
            r.1 == width_at(self.text(), self.pos()),
    {
        proof {
            lemma_char_step(self.text(), self.pos());
        }
        let x = self.cur();
        let v: u32;
        let width: usize;
        if x < 0x80 {
            v = x as u32;
            width = 1;
        } else if x < 0xE0 {
            let y = self.peek(1);
            v = ((x & 0x1F) as u32) << 6u32 | ((y & 0x3F) as u32);
            width = 2;
        } else if x < 0xF0 {
            let y = self.peek(1);
            let z = self.peek(2);
            v = ((x & 0x0F) as u32) << 12u32 | ((y & 0x3F) as u32) << 6u32 | ((z & 0x3F) as u32);
            width = 3;
        } else {
            let y = self.peek(1);
            let z = self.peek(2);
            let w = self.peek(3);
            v = ((x & 0x07) as u32) << 18u32 | ((y & 0x3F) as u32) << 12u32 | ((z & 0x3F) as u32)
                << 6u32 | ((w & 0x3F) as u32);
            width = 4;
        }
        proof {
            let r = self.text().subrange(self.pos(), self.text().len() as int);
            assert(r[0] == x);
            assert(width > 1 ==> r[1] == self.text()[self.pos() + 1]);
            assert(width > 2 ==> r[2] == self.text()[self.pos() + 2]);
            assert(width > 3 ==> r[3] == self.text()[self.pos() + 3]);
            assert(x < 0x80 ==> (x & 0x7F) == x) by (bit_vector);
        }
        match to_char(v) {
            Ok(c) => (c, width),
            Err(_) => {
                proof {
                    assert(false);
                }
                ('\0', width)
            },
        }
    }

    /// The character at the cursor.
    pub fn cur_char(&self) -> (r: char)
        requires
            self.wf(),
            self.pos() < self.text().len(),
        ensures
            r as u32 == char_at(self.text(), self.pos()),
    {
        self.decode_char().0
    }

    /// The character at the cursor if its byte is ASCII.
    pub fn cur_ascii(&self) -> (r: Option<char>)
        requires
            self.wf(),
            self.pos() < self.text().len(),
        ensures
            match r {
                Some(c) => self.text()[self.pos()] < 0x80 && c as u32 == self.text()[self.pos()] as u32,
                None => self.text()[self.pos()] >= 0x80,
            },
    {
        let x = self.cur();
        if x < 0x80 {
            Some(x as char)
        } else {
            None
        }
    }

    /// The width that the lead byte at the cursor announces.
    pub(crate) fn lead_width(&self) -> (r: usize)
        requires
            self.wf(),
            self.pos() < self.text().len(),
        ensures
            r == utf8_width(self.text()[self.pos()]),
    {
        let x = self.cur();
        if x < 0x80 {
            1
        } else if x < 0xE0 {
            2
        } else if x < 0xF0 {
            3
        } else {
            4
        }
    }

    /// Moves the cursor past the character at it.
    pub fn skip_char(&mut self)
        requires
            old(self).wf(),
            old(self).pos() < old(self).text().len(),
        ensures
            final(self).wf(),
            final(self).text() == old(self).text(),
            final(self).pos() == old(self).pos() + width_at(old(self).text(), old(self).pos()),
    {
        proof {
            lemma_char_step(self.text(), self.pos());
        }
        let w = self.lead_width();
        self.skip(w);
    }
}

} // verus!
