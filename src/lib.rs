//! Lexical analysis of ECMAScript/TypeScript source text: classified tokens
//! with exact byte positions.
use vstd::prelude::*;
use vstd::string::StringSliceAdditionalSpecFns;

pub mod error;
pub mod loader;
pub mod scanner;
pub mod token;
pub mod unicode;

use error::Result;
use scanner::entry::{scan_step, scan_unit};
use scanner::hashbang::starts_hashbang;
use scanner::line::line_end;
use scanner::unit::{outcome_is, Step};
use scanner::whitespace::space_end;
use scanner::Scanner;
use token::span::Span;
use token::Token;

verus! {

/// A token sequence over a source text. It stops for good after the end of
/// input or after the first diagnostic.
#[derive(Debug)]
pub struct Lexer<'s> {
    pub src: &'s str,
    pub scanner: Scanner<'s>,
    /// Set once the sequence has ended or failed.
    pub done: bool,
}

impl<'s> Lexer<'s> {
    pub open spec fn text(&self) -> Seq<u8> {
        self.src.spec_bytes()
    }

    pub open spec fn finished(&self) -> bool {
        self.done
    }

    pub open spec fn wf(&self) -> bool {
        &&& self.scanner.wf()
        &&& self.scanner.text() == self.text()
        &&& self.text().len() <= u32::MAX
    }

    /// A lexer at the start of `src`.
    pub fn new(src: &'s str) -> (r: Self)
        requires
            src.spec_bytes().len() <= u32::MAX,
        ensures
            r.wf(),
            r.src == src,
            r.scanner.pos() == 0,
            !r.finished(),
    {
        Lexer { src, scanner: Scanner::new(src), done: false }
    }

    /// Scans the hashbang line if the lexer stands at the very start of the
    /// text; otherwise does nothing.
    pub fn hashbang(&mut self) -> (r: Option<&'s str>)
        requires
            old(self).wf(),
        ensures
            final(self).wf(),
            final(self).src == old(self).src,
            final(self).finished() == old(self).finished(),
            ({
                let b = old(self).text();
                if old(self).scanner.pos() == 0 && starts_hashbang(b, 0) {
                    &&& final(self).scanner.pos() == line_end(b, 2)
                    &&& r matches Some(s) && s.spec_bytes() == b.subrange(2, line_end(b, 2))
                } else {
                    final(self).scanner.pos() == old(self).scanner.pos() && r.is_none()
                }
            }),
    {
        if self.scanner.position() == 0 {
            self.scanner.scan_hashbang()
        } else {
            None
        }
    }

    /// The next token: whitespace is skipped, then one unit is scanned. None at
    /// the end of input and after a diagnostic.
    pub fn next(&mut self) -> (r: Option<Result<Token<'s>>>)
        requires
            old(self).wf(),
        ensures
            final(self).wf(),
            final(self).src == old(self).src,
            old(self).scanner.pos() <= final(self).scanner.pos(),
            ({
                let b = old(self).text();
                let q = space_end(b, old(self).scanner.pos());
                if old(self).finished() {
                    r.is_none() && final(self).finished() && final(self).scanner.pos() == old(
                        self,
                    ).scanner.pos()
                } else if q == b.len() {
                    r.is_none() && final(self).finished() && final(self).scanner.pos() == q
                } else {
                    &&& r is Some
                    &&& token_outcome(r->0, scan_step(b, q), q, final(self).scanner.pos())
                    &&& final(self).finished() == r->0 is Err
                }
            }),
    {
        if self.done {
            return None;
        }
        self.scanner.skip_space();
        if self.scanner.is_empty() {
            self.done = true;
            return None;
        }
        let lo = self.scanner.position();
        match scan_unit(&mut self.scanner) {
            Ok(unit) => {
                let hi = self.scanner.position();
                let span = Span { lo: lo as u32, hi: hi as u32, tier: 0 };
                Some(Ok(Token { span, unit }))
            },
            Err(e) => {
                self.done = true;
                Some(Err(e))
            },
        }
    }
}

/// A token result agrees with a scan step that started at `lo` and left the
/// cursor at `pos`: the unit is the step's, its span is `[lo, pos)` in tier 0.
pub open spec fn token_outcome<'s>(r: Result<Token<'s>>, s: Step, lo: int, pos: int) -> bool {
    match r {
        Ok(t) => outcome_is(Ok(t.unit), s, pos) && t.span.lo == lo && t.span.hi == pos
            && t.span.tier == 0,
        Err(e) => outcome_is(Err(e), s, pos),
    }
}

/// Turns a text into a lexer over it.
pub trait Tokenize<T> {
    /// The text can be tokenized: its positions fit a `Pos`.
    spec fn tokenizable(&self) -> bool;

    /// `r` is a fresh token sequence over this text.
    spec fn tokenized(&self, r: &T) -> bool;

    fn tokenize(self) -> (r: T)
        requires
            self.tokenizable(),
        ensures
            self.tokenized(&r),
    ;
}

impl<'s> Tokenize<Lexer<'s>> for &'s str {
    open spec fn tokenizable(&self) -> bool {
        self.spec_bytes().len() <= u32::MAX
    }

    /// A well-formed lexer over this text, at its start, not finished.
    open spec fn tokenized(&self, r: &Lexer<'s>) -> bool {
        &&& r.wf()
        &&& r.src == *self
        &&& r.scanner.pos() == 0
        &&& !r.finished()
    }

    fn tokenize(self) -> (r: Lexer<'s>) {
        Lexer::new(self)
    }
}

} // verus!
