//! A forward-only cursor over UTF-8 source text, and the scanning routines built on it.
use vstd::prelude::*;
use vstd::string::StringSliceAdditionalSpecFns;
use vstd::utf8::*;

use crate::error::{info, Result};
use crate::unicode;

pub mod comment;
pub mod decode_char;
pub mod digit;
pub mod entry;
pub mod escape_unicode;
pub mod hashbang;
pub mod ident;
pub mod keyword;
pub mod line;
pub mod lit;
pub mod number;
pub mod punctuator;
pub mod spans;
pub mod string;
pub mod text;
pub mod unit;
pub mod whitespace;

use comment::{block_end, block_step, Comment};
use entry::scan_step;
use ident::ident_end;
use line::line_end;
use text::{
    byte_is, char_text, is_ascii_digit, lemma_ascii_step, lemma_boundary_prefix, lemma_char_step,
};
use unit::{outcome_is, Unit};
use whitespace::space_end;

verus! {

broadcast use vstd::utf8::group_utf8_lib;

/// A cursor over borrowed source text. It only moves forward, and always stands
/// on a character boundary.
#[derive(Debug)]
pub struct Scanner<'s> {
    src: &'s str,
    bytes: &'s [u8],
    pos: usize,
}

impl<'s> Scanner<'s> {
    /// The bytes of the whole source text.
    pub closed spec fn text(&self) -> Seq<u8> {
        self.bytes@
    }

    /// The byte offset of the cursor.
    pub closed spec fn pos(&self) -> int {
        self.pos as int
    }

    /// The cursor's bytes are those of its text.
    pub closed spec fn linked(&self) -> bool {
        self.bytes@ == self.src.spec_bytes()
    }

    /// The cursor reads its own text, which is well-formed UTF-8, and stands on
    /// a character boundary within it.
    pub open spec fn wf(&self) -> bool {
        &&& self.linked()
        &&& valid_utf8(self.text())
        &&& 0 <= self.pos() <= self.text().len() <= usize::MAX
        &&& is_char_boundary(self.text(), self.pos())
    }

    /// The cursor moved forward over the same text.
    pub open spec fn advanced_from(&self, before: &Scanner<'s>) -> bool {
        &&& self.wf()
        &&& self.text() == before.text()
        &&& before.pos() <= self.pos()
    }

    /// The number of bytes after the cursor.
    pub open spec fn remaining(&self) -> int {
        self.text().len() - self.pos()
    }

    pub fn new(src: &'s str) -> (r: Self)
        ensures
            r.wf(),
            r.text() == src.spec_bytes(),
            r.pos() == 0,
    {
        let bytes = src.as_bytes();
        // Asking for the length records that it fits a `usize`.
        let _n = bytes.len();
        proof {
            is_char_boundary_start_end_of_seq(bytes@);
        }
        Scanner { src, bytes, pos: 0 }
    }

    /// The byte at the cursor always leads a character: it is never a UTF-8
    /// continuation byte, nor a byte that well-formed UTF-8 does not hold.
    pub proof fn lemma_cursor_on_lead_byte(&self)
        requires
            self.wf(),
            self.pos() < self.text().len(),
        ensures
            !is_continuation_byte(self.text()[self.pos()]),
            self.text()[self.pos()] < 0x80 || 0xC2 <= self.text()[self.pos()] <= 0xF4,
    {
        lemma_char_step(self.text(), self.pos());
        is_char_boundary_iff_not_is_continuation_byte(self.text(), self.pos());
    }

    /// The byte offset of the cursor.
    pub fn position(&self) -> (r: usize)
        ensures
            r == self.pos(),
    {
        self.pos
    }

    /// The byte at the cursor.
    pub fn cur(&self) -> (r: u8)
        requires
            self.wf(),
            self.pos() < self.text().len(),
        ensures
            r == self.text()[self.pos()],
    {
        self.bytes[self.pos]
    }

    /// The byte `count` places after the cursor.
    pub fn peek(&self, count: usize) -> (r: u8)
        requires
            self.wf(),
            self.pos() + count < self.text().len(),
        ensures
            r == self.text()[self.pos() + count],
    {
        self.bytes[self.pos + count]
    }

    /// Moves the cursor `count` bytes forward, onto another character boundary.
    /// The cursor never stops inside a character, so that every slice between
    /// two of its positions is text.
    pub fn skip(&mut self, count: usize)
        requires
            old(self).wf(),
            old(self).pos() + count <= old(self).text().len(),
            is_char_boundary(old(self).text(), old(self).pos() + count),
        ensures
            final(self).wf(),
            final(self).text() == old(self).text(),
            final(self).pos() == old(self).pos() + count,
    {
        self.pos = self.pos + count;
    }

    /// Consumes the ASCII byte `byte` if it is next, and tells whether it did.
    ///
    /// Only ASCII bytes are taken: a byte of 0x80 or above that stands at the
    /// cursor leads a multi-byte character, and stepping over it alone would
    /// leave the cursor inside that character, where no text slice may begin
    /// or end. Every byte the lexer consumes this way is ASCII.
    pub fn eat(&mut self, byte: u8) -> (r: bool)
        requires
            old(self).wf(),
            byte < 0x80,
        ensures
            final(self).wf(),
            final(self).text() == old(self).text(),
            r == byte_is(old(self).text(), old(self).pos(), byte),
            final(self).pos() == old(self).pos() + if r { 1int } else { 0int },
    {
        if self.is_empty() {
            return false;
        }
        if self.cur() == byte {
            proof {
                lemma_ascii_step(self.text(), self.pos());
            }
            self.skip(1);
            true
        } else {
            false
        }
    }

    /// Moves the cursor past the ASCII byte at it.
    pub fn bump(&mut self)
        requires
            old(self).wf(),
            old(self).pos() < old(self).text().len(),
            old(self).text()[old(self).pos()] < 0x80,
        ensures
            final(self).wf(),
            final(self).text() == old(self).text(),
            final(self).pos() == old(self).pos() + 1,
    {
        proof {
            lemma_ascii_step(self.text(), self.pos());
        }
        self.skip(1);
    }

    /// The byte before the cursor.
    pub fn prev(&self) -> (r: u8)
        requires
            self.wf(),
            0 < self.pos(),
        ensures
            r == self.text()[self.pos() - 1],
    {
        self.bytes[self.pos - 1]
    }

    /// The text between two character boundaries.
    pub fn sub_str(&self, start: usize, end: usize) -> (r: &'s str)
        requires
            self.wf(),
            start <= end <= self.text().len(),
            is_char_boundary(self.text(), start as int),
            is_char_boundary(self.text(), end as int),
        ensures
            r.spec_bytes() == self.text().subrange(start as int, end as int),
            r@ == decode_utf8(self.text().subrange(start as int, end as int)),
    {
        let ghost b = self.text();
        let head = self.src.split_at(end).0;
        proof {
            valid_utf8_split(b, end as int);
            let h = b.subrange(0, end as int);
            assert(head.spec_bytes() == h);
            assert(h.subrange(0, start as int) == b.subrange(0, start as int));
            assert(h.subrange(start as int, h.len() as int) == b.subrange(start as int, end as int));
            lemma_boundary_prefix(b, end as int, start as int);
        }
        let r = head.split_at(start).1;
        r
    }

    /// The text of the character at the cursor; empty at the end of input.
    pub fn cur_str(&self) -> (r: &'s str)
        requires
            self.wf(),
        ensures
            r@ == char_text(self.text(), self.pos()),
    {
        if self.is_empty() {
            return self.sub_str(self.pos, self.pos);
        }
        proof {
            lemma_char_step(self.text(), self.pos());
        }
        let w = self.lead_width();
        self.sub_str(self.pos, self.pos + w)
    }

    /// The number of bytes after the cursor.
    pub fn len(&self) -> (r: usize)
        requires
            self.wf(),
        ensures
            r == self.remaining(),
    {
        self.bytes.len() - self.pos
    }

    /// The cursor is at the end of the text.
    pub fn is_empty(&self) -> (r: bool)
        requires
            self.wf(),
        ensures
            r == (self.pos() == self.text().len()),
    {
        self.pos == self.bytes.len()
    }
}

impl<'s> Scanner<'s> {
    /// Skips the whitespace run at the cursor.
    pub fn skip_space(&mut self)
        requires
            old(self).wf(),
        ensures
            final(self).advanced_from(old(self)),
            final(self).pos() == space_end(old(self).text(), old(self).pos()),
    {
        loop
            invariant
                self.advanced_from(old(self)),
                space_end(self.text(), self.pos()) == space_end(old(self).text(), old(self).pos()),
            ensures
                space_end(self.text(), self.pos()) == self.pos(),
            decreases self.remaining(),
        {
            if self.is_empty() {
                break;
            }
            proof {
                lemma_char_step(self.text(), self.pos());
            }
            match whitespace::lookup(self.cur()) {
                None => break,
                Some(_) if self.cur() < 0x80 => self.skip(1),
                Some(_) => {
                    let (ch, width) = self.decode_char();
                    if whitespace::is_unicode_space(ch) || line::is_unicode_line_terminator(ch) {
                        self.skip(width);
                    } else {
                        break;
                    }
                },
            }
        }
    }

    /// Skips the rest of the line: up to the next line terminator, which it
    /// leaves, or to the end of input.
    pub fn skip_line(&mut self)
        requires
            old(self).wf(),
        ensures
            final(self).advanced_from(old(self)),
            final(self).pos() == line_end(old(self).text(), old(self).pos()),
    {
        loop
            invariant
                self.advanced_from(old(self)),
                line_end(self.text(), self.pos()) == line_end(old(self).text(), old(self).pos()),
            ensures
                line_end(self.text(), self.pos()) == self.pos(),
            decreases self.remaining(),
        {
            if self.is_empty() {
                break;
            }
            proof {
                lemma_char_step(self.text(), self.pos());
            }
            match line::lookup(self.cur()) {
                line::Handler::NewLine => break,
                line::Handler::Ascii => self.skip(1),
                line::Handler::Unicode => self.skip_char(),
                line::Handler::MaybeTerminator => {
                    let (ch, width) = self.decode_char();
                    if line::is_unicode_line_terminator(ch) {
                        break;
                    }
                    self.skip(width);
                },
                line::Handler::Invalid => {
                    proof {
                        assert(false);
                    }
                    break;
                },
            }
        }
    }

    /// Skips the identifier parts at the cursor.
    pub fn skip_ident_part(&mut self)
        requires
            old(self).wf(),
        ensures
            final(self).advanced_from(old(self)),
            final(self).pos() == ident_end(old(self).text(), old(self).pos()),
    {
        loop
            invariant
                self.advanced_from(old(self)),
                ident_end(self.text(), self.pos()) == ident_end(old(self).text(), old(self).pos()),
            ensures
                ident_end(self.text(), self.pos()) == self.pos(),
            decreases self.remaining(),
        {
            if self.is_empty() {
                break;
            }
            proof {
                lemma_char_step(self.text(), self.pos());
            }
            match ident::lookup(self.cur()) {
                None => break,
                Some(ident::Handler::Ascii) => self.skip(1),
                Some(ident::Handler::Unicode) => {
                    let (ch, width) = self.decode_char();
                    let v = ch as u32;
                    proof {
                        char_u32_cast(ch, v);
                    }
                    if unicode::is_ident_continue(ch) || v == 0x200C || v == 0x200D {
                        self.skip(width);
                    } else {
                        break;
                    }
                },
            }
        }
    }
}

impl<'s> Scanner<'s> {
    /// Scans a block comment whose opening `/*` is already consumed, up to the
    /// first `*/`. Input that ends first is a diagnostic.
    pub fn scan_block_comment(&mut self) -> (r: Result<Unit<'s>>)
        requires
            old(self).wf(),
        ensures
            final(self).advanced_from(old(self)),
            outcome_is(r, block_step(old(self).text(), old(self).pos()), final(self).pos()),
    {
        let start = self.pos;
        loop
            invariant
                self.advanced_from(old(self)),
                start == old(self).pos(),
                is_char_boundary(self.text(), start as int),
                block_end(self.text(), self.pos()) == block_end(old(self).text(), old(self).pos()),
            decreases self.remaining(),
        {
            if self.is_empty() {
                return Err(info("Unterminated block comment"));
            }
            if self.cur() == '*' as u8 && self.len() >= 2 && self.peek(1) == '/' as u8 {
                let end = self.pos;
                self.bump();
                self.bump();
                let text = self.sub_str(start, end);
                return Ok(Unit::Comment(Comment::BlockComment(text)));
            }
            proof {
                lemma_char_step(self.text(), self.pos());
            }
            self.skip_char();
        }
    }

    /// Skips whitespace, then scans one unit; none at the end of input.
    pub fn next(&mut self) -> (r: Option<Result<Unit<'s>>>)
        requires
            old(self).wf(),
        ensures
            final(self).advanced_from(old(self)),
            ({
                let b = old(self).text();
                let q = space_end(b, old(self).pos());
                if q == b.len() {
                    r.is_none() && final(self).pos() == q
                } else {
                    r matches Some(res) && outcome_is(res, scan_step(b, q), final(self).pos())
                }
            }),
    {
        self.skip_space();
        if self.is_empty() {
            None
        } else {
            Some(entry::scan_unit(self))
        }
    }

    /// Scans the number that starts with the digit at the cursor, through the
    /// same dispatch as every other unit.
    pub fn scan_number(&mut self) -> (r: Result<Unit<'s>>)
        requires
            old(self).wf(),
            old(self).pos() < old(self).text().len(),
            is_ascii_digit(old(self).text()[old(self).pos()]),
        ensures
            final(self).advanced_from(old(self)),
            outcome_is(r, scan_step(old(self).text(), old(self).pos()), final(self).pos()),
    {
        entry::scan_unit(self)
    }
}

} // verus!
