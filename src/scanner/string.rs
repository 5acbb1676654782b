//! String literals and templates without substitutions. The scan keeps the raw
//! text between the delimiters: a backslash takes the character after it (in a
//! string, a CR LF pair as one), so an escaped delimiter or line break does not
//! end the literal; what escapes denote is left to whoever cooks the value.
use vstd::prelude::*;

use vstd::utf8::is_char_boundary;

use crate::error::{info, Result};
use crate::scanner::lit::{Lit, StringLit};
use crate::scanner::text::{byte_is, lemma_char_step, width_at};
use crate::scanner::unit::{outcome_is, Step, Unit, UnitView};
use crate::scanner::Scanner;

verus! {

pub open spec fn unterminated_string_message() -> Seq<char> {
    "Unterminated string literal"@
}

/// From `q` inside a string delimited by `quote`: the index of the closing
/// quote, or the position where the scan stops because the input ends or an
/// unescaped line feed or carriage return comes.
pub open spec fn string_close(b: Seq<u8>, q: int, quote: u8) -> std::result::Result<int, int>
    decreases b.len() - q,
{
    if !(0 <= q < b.len()) {
        Err(q)
    } else if b[q] == quote {
        Ok(q)
    } else if b[q] == 0x0A || b[q] == 0x0D {
        Err(q)
    } else if b[q] == '\\' as u8 {
        if q + 1 >= b.len() {
            Err(q + 1)
        } else if b[q + 1] == 0x0D && byte_is(b, q + 2, 0x0A) {
            string_close(b, q + 3, quote)
        } else if 0 < width_at(b, q + 1) <= b.len() - q - 1 {
            string_close(b, q + 1 + width_at(b, q + 1), quote)
        } else {
            Err(q + 1)
        }
    } else if 0 < width_at(b, q) <= b.len() - q {
        string_close(b, q + width_at(b, q), quote)
    } else {
        Err(q)
    }
}

/// A string literal whose opening quote is at `q`.
pub open spec fn string_step(b: Seq<u8>, q: int) -> Step {
    match string_close(b, q + 1, b[q]) {
        Ok(e) => Step::Unit { unit: UnitView::String { quote: b[q], raw: b.subrange(q + 1, e) }, end: e + 1 },
        Err(at) => Step::Fail { msg: unterminated_string_message(), at },
    }
}

impl<'s> Scanner<'s> {
    /// Scans the string literal whose opening quote is at the cursor.
    pub fn scan_string(&mut self) -> (r: Result<Unit<'s>>)
        requires
            old(self).wf(),
            old(self).pos() < old(self).text().len(),
            old(self).text()[old(self).pos()] == '"' as u8 || old(self).text()[old(self).pos()]
                == '\'' as u8,
        ensures
            final(self).advanced_from(old(self)),
            outcome_is(r, string_step(old(self).text(), old(self).pos()), final(self).pos()),
    {
        let quote = self.cur();
        self.bump();
        let start = self.position();
        loop
            invariant
                self.advanced_from(old(self)),
                start == old(self).pos() + 1,
                start <= self.pos(),
                quote == old(self).text()[old(self).pos()],
                quote < 0x80,
                is_char_boundary(self.text(), start as int),
                string_close(self.text(), self.pos(), quote) == string_close(
                    self.text(),
                    start as int,
                    quote,
                ),
            decreases self.remaining(),
        {
            if self.is_empty() {
                return Err(info("Unterminated string literal"));
            }
            let c = self.cur();
            if c == quote {
                let end = self.position();
                self.bump();
                let raw = self.sub_str(start, end);
                return Ok(Unit::Lit(Lit::String(StringLit { raw, quote })));
            }
            if c == 0x0A || c == 0x0D {
                return Err(info("Unterminated string literal"));
            }
            if c == '\\' as u8 {
                self.bump();
                if self.is_empty() {
                    return Err(info("Unterminated string literal"));
                }
                if self.cur() == 0x0D {
                    self.bump();
                    self.eat(0x0A);
                } else {
                    proof {
                        lemma_char_step(self.text(), self.pos());
                    }
                    self.skip_char();
                }
            } else {
                proof {
                    lemma_char_step(self.text(), self.pos());
                }
                self.skip_char();
            }
        }
    }
}

pub open spec fn unterminated_template_message() -> Seq<char> {
    "Unterminated template literal"@
}

pub open spec fn substitution_message() -> Seq<char> {
    "Template substitution is not supported"@
}

/// From `q` inside a template: the index of the closing backtick, or the
/// position where the scan stops because the input ends or a substitution
/// `${` begins. Line breaks belong to the template.
pub open spec fn template_close(b: Seq<u8>, q: int) -> std::result::Result<int, int>
    decreases b.len() - q,
{
    if !(0 <= q < b.len()) {
        Err(q)
    } else if b[q] == '`' as u8 {
        Ok(q)
    } else if b[q] == '$' as u8 && byte_is(b, q + 1, '{' as u8) {
        Err(q)
    } else if b[q] == '\\' as u8 {
        if q + 1 < b.len() && 0 < width_at(b, q + 1) <= b.len() - q - 1 {
            template_close(b, q + 1 + width_at(b, q + 1))
        } else {
            Err(q + 1)
        }
    } else if 0 < width_at(b, q) <= b.len() - q {
        template_close(b, q + width_at(b, q))
    } else {
        Err(q)
    }
}

/// A template whose opening backtick is at `q`.
pub open spec fn template_step(b: Seq<u8>, q: int) -> Step {
    match template_close(b, q + 1) {
        Ok(e) => Step::Unit { unit: UnitView::Template(b.subrange(q + 1, e)), end: e + 1 },
        Err(at) => Step::Fail {
            msg: if byte_is(b, at, '$' as u8) {
                substitution_message()
            } else {
                unterminated_template_message()
            },
            at,
        },
    }
}

impl<'s> Scanner<'s> {
    /// Scans the template whose opening backtick is at the cursor. A
    /// substitution `${` is a diagnostic.
    pub fn scan_template(&mut self) -> (r: Result<Unit<'s>>)
        requires
            old(self).wf(),
            old(self).pos() < old(self).text().len(),
            old(self).text()[old(self).pos()] == '`' as u8,
        ensures
            final(self).advanced_from(old(self)),
            outcome_is(r, template_step(old(self).text(), old(self).pos()), final(self).pos()),
    {
        self.bump();
        let start = self.position();
        loop
            invariant
                self.advanced_from(old(self)),
                start == old(self).pos() + 1,
                start <= self.pos(),
                is_char_boundary(self.text(), start as int),
                template_close(self.text(), self.pos()) == template_close(self.text(), start as int),
            decreases self.remaining(),
        {
            if self.is_empty() {
                return Err(info("Unterminated template literal"));
            }
            let c = self.cur();
            if c == '`' as u8 {
                let end = self.position();
                self.bump();
                return Ok(Unit::Lit(Lit::Template(self.sub_str(start, end))));
            }
            if c == '$' as u8 && self.len() >= 2 && self.peek(1) == '{' as u8 {
                return Err(info("Template substitution is not supported"));
            }
            if c == '\\' as u8 {
                self.bump();
                if self.is_empty() {
                    return Err(info("Unterminated template literal"));
                }
            }
            proof {
                lemma_char_step(self.text(), self.pos());
            }
            self.skip_char();
        }
    }
}

} // verus!
