//! Literal payloads.
use vstd::prelude::*;

verus! {

/// The base a numeric literal is written in.
#[derive(Debug, Clone, Copy, PartialEq, Eq, Structural)]
pub enum Radix {
    Binary,
    Octal,
    Decimal,
    Hex,
}

/// A numeric literal: its source text, its base, and whether it carries the
/// big-integer suffix `n`.
#[derive(Debug)]
pub struct Number<'s> {
    pub raw: &'s str,
    pub radix: Radix,
    pub big_int: bool,
}

/// A string literal: the raw text between its quotes, escapes as written,
/// and the quote byte that delimits it.
#[derive(Debug)]
pub struct StringLit<'s> {
    pub raw: &'s str,
    pub quote: u8,
}

#[derive(Debug)]
pub enum Lit<'s> {
    Number(Number<'s>),
    String(StringLit<'s>),
    /// A template without substitutions: the raw text between its backticks.
    Template(&'s str),
}

} // verus!
