//! The classified payload of one scan step.
use vstd::prelude::*;
use vstd::string::StringSliceAdditionalSpecFns;

use crate::error::Result;
use crate::scanner::comment::Comment;
use crate::scanner::ident::Ident;
use crate::scanner::keyword::Keyword;
use crate::scanner::lit::{Lit, Radix};
use crate::scanner::punctuator::Punctuator;

verus! {

#[derive(Debug)]
pub enum Unit<'s> {
    Keyword(Keyword),
    Punctuator(Punctuator),
    Ident(Ident<'s>),
    Lit(Lit<'s>),
    Comment(Comment<'s>),
}

/// A unit with its text as bytes.
pub enum UnitView {
    Keyword(Keyword),
    Punctuator(Punctuator),
    Ident(Seq<u8>),
    Number { radix: Radix, big_int: bool, raw: Seq<u8> },
    String { quote: u8, raw: Seq<u8> },
    Template(Seq<u8>),
    LineComment(Seq<u8>),
    BlockComment(Seq<u8>),
}

impl<'s> View for Unit<'s> {
    type V = UnitView;

    open spec fn view(&self) -> UnitView {
        match self {
            Unit::Keyword(k) => UnitView::Keyword(*k),
            Unit::Punctuator(p) => UnitView::Punctuator(*p),
            Unit::Ident(i) => UnitView::Ident(i.raw.spec_bytes()),
            Unit::Lit(Lit::Number(n)) => UnitView::Number {
                radix: n.radix,
                big_int: n.big_int,
                raw: n.raw.spec_bytes(),
            },
            Unit::Lit(Lit::String(s)) => UnitView::String { quote: s.quote, raw: s.raw.spec_bytes() },
            Unit::Lit(Lit::Template(s)) => UnitView::Template(s.spec_bytes()),
            Unit::Comment(Comment::LineComment(s)) => UnitView::LineComment(s.spec_bytes()),
            Unit::Comment(Comment::BlockComment(s)) => UnitView::BlockComment(s.spec_bytes()),
        }
    }
}

/// The source text that a unit is scanned from: the spelling of a keyword or
/// punctuator, the raw text of an identifier or number, a string's,
/// template's or comment's text with its delimiters.
pub open spec fn unit_source(u: UnitView) -> Seq<u8> {
    match u {
        UnitView::Keyword(k) => k.spelling(),
        UnitView::Punctuator(p) => p.spelling(),
        UnitView::Ident(raw) => raw,
        UnitView::Number { raw, .. } => raw,
        UnitView::String { quote, raw } => seq![quote] + raw + seq![quote],
        UnitView::Template(raw) => seq!['`' as u8] + raw + seq!['`' as u8],
        UnitView::LineComment(c) => seq!['/' as u8, '/' as u8] + c,
        UnitView::BlockComment(c) => seq!['/' as u8, '*' as u8] + c + seq!['*' as u8, '/' as u8],
    }
}

/// What one scan step at a position gives: a unit and the position after it,
/// or a diagnostic and the position where scanning stopped.
pub enum Step {
    Unit { unit: UnitView, end: int },
    Fail { msg: Seq<char>, at: int },
}

/// A scan result and the cursor after it agree with a step.
pub open spec fn outcome_is<'s>(r: Result<Unit<'s>>, s: Step, pos: int) -> bool {
    match (r, s) {
        (Ok(u), Step::Unit { unit, end }) => u@ == unit && pos == end,
        (Err(e), Step::Fail { msg, at }) => e.is_info(msg) && pos == at,
        _ => false,
    }
}

} // verus!
