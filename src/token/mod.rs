//! Tokens: a unit paired with its span.
use vstd::prelude::*;

pub mod span;

use crate::scanner::unit::Unit;
use span::Span;

verus! {

#[derive(Debug)]
pub struct Token<'s> {
    pub span: Span,
    pub unit: Unit<'s>,
}

} // verus!
