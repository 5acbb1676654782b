//! The dispatch on the leading byte of a unit, and the handlers it selects.
use vstd::prelude::*;
use vstd::string::StringSliceAdditionalSpecFns;
use vstd::utf8::*;

use crate::error::{info, info_quoted, Result};
use crate::scanner::comment::{block_step, Comment};
use crate::scanner::ident::{ident_end, Ident};
use crate::scanner::keyword::{keyword_of, lookup_keyword};
use crate::scanner::line::line_end;
use crate::scanner::lit::{Lit, Number, Radix};
use crate::scanner::number::{decimal_scan, num_outcome, radix_scan, NumScan};
use crate::scanner::punctuator::{punct_at, Punctuator};
use crate::scanner::string::{string_step, template_step};
use crate::scanner::text::{byte_is, char_at, char_text, is_ascii_digit, lemma_char_step, width_at};
use crate::scanner::unit::{outcome_is, Step, Unit, UnitView};
use crate::scanner::Scanner;
use crate::unicode::{id_start, is_ident_start};

verus! {

broadcast use vstd::utf8::group_utf8_lib;

/// The classes of leading bytes, each with its handler.
#[derive(Debug, Clone, Copy, PartialEq, Eq, Structural)]
pub enum Entry {
    /// Control characters, space and DEL.
    Invalid,
    /// `A`-`Z`, `_`, `$`: an identifier, never a keyword.
    Ident,
    /// `a`-`z`: a word that may be a keyword.
    Word,
    /// `0`: a number that may have a radix prefix.
    Zero,
    /// `1`-`9`: a decimal number.
    Digit,
    /// `.`: a punctuator or a number.
    Dot,
    /// `/`: a comment or a punctuator.
    Slash,
    /// `"` or `'`: a string literal.
    Quote,
    /// `` ` ``: a template literal.
    Backtick,
    /// `\`: an escape at the start of an identifier.
    Backslash,
    /// The first byte of the other punctuators.
    Punct,
    /// The lead byte of a multi-byte character.
    Unicode,
    /// A byte that no character boundary of UTF-8 holds.
    Unreachable,
}

pub open spec fn is_punct_start(c: u8) -> bool {
    c == '!' as u8 || c == '#' as u8 || c == '%' as u8 || c == '&' as u8 || c == '(' as u8 || c
        == ')' as u8 || c == '*' as u8 || c == '+' as u8 || c == ',' as u8 || c == '-' as u8 || c
        == ':' as u8 || c == ';' as u8 || c == '<' as u8 || c == '=' as u8 || c == '>' as u8 || c
        == '?' as u8 || c == '@' as u8 || c == '[' as u8 || c == ']' as u8 || c == '^' as u8 || c
        == '{' as u8 || c == '|' as u8 || c == '}' as u8 || c == '~' as u8
}

/// The dispatch table.
pub open spec fn entry_of(c: u8) -> Entry {
    if c <= 0x20 || c == 0x7F {
        Entry::Invalid
    } else if 'a' as u8 <= c <= 'z' as u8 {
        Entry::Word
    } else if ('A' as u8 <= c <= 'Z' as u8) || c == '_' as u8 || c == '$' as u8 {
        Entry::Ident
    } else if c == '0' as u8 {
        Entry::Zero
    } else if '1' as u8 <= c <= '9' as u8 {
        Entry::Digit
    } else if c == '.' as u8 {
        Entry::Dot
    } else if c == '/' as u8 {
        Entry::Slash
    } else if c == '"' as u8 || c == '\'' as u8 {
        Entry::Quote
    } else if c == '`' as u8 {
        Entry::Backtick
    } else if c == '\\' as u8 {
        Entry::Backslash
    } else if c < 0x80 {
        Entry::Punct
    } else if 0xC2 <= c <= 0xF4 {
        Entry::Unicode
    } else {
        Entry::Unreachable
    }
}

/// The handler for a leading byte.
pub fn lookup(index: u8) -> (r: Entry)
    ensures
        r == entry_of(index),
{
    let c = index;
    if c <= 0x20 || c == 0x7F {
        Entry::Invalid
    } else if 'a' as u8 <= c && c <= 'z' as u8 {
        Entry::Word
    } else if ('A' as u8 <= c && c <= 'Z' as u8) || c == '_' as u8 || c == '$' as u8 {
        Entry::Ident
    } else if c == '0' as u8 {
        Entry::Zero
    } else if '1' as u8 <= c && c <= '9' as u8 {
        Entry::Digit
    } else if c == '.' as u8 {
        Entry::Dot
    } else if c == '/' as u8 {
        Entry::Slash
    } else if c == '"' as u8 || c == '\'' as u8 {
        Entry::Quote
    } else if c == '`' as u8 {
        Entry::Backtick
    } else if c == '\\' as u8 {
        Entry::Backslash
    } else if c < 0x80 {
        Entry::Punct
    } else if 0xC2 <= c && c <= 0xF4 {
        Entry::Unicode
    } else {
        Entry::Unreachable
    }
}

pub open spec fn invalid_char_message(found: Seq<char>) -> Seq<char> {
    "Invalid char '"@ + found + "'"@
}

pub open spec fn invalid_unicode_message(found: Seq<char>) -> Seq<char> {
    "Invalid Unicode char '"@ + found + "'"@
}

pub open spec fn double_dot_message() -> Seq<char> {
    "Invalid punctuator '..'"@
}

pub open spec fn escape_ident_message() -> Seq<char> {
    "Unicode escape in identifier is not supported"@
}

/// A word: the reserved word it spells, or else an identifier.
pub open spec fn word_unit(w: Seq<u8>) -> UnitView {
    match keyword_of(w) {
        Some(k) => UnitView::Keyword(k),
        None => UnitView::Ident(w),
    }
}

/// A number that starts at `q`, given how its scan ended.
pub open spec fn number_step(b: Seq<u8>, q: int, radix: Radix, s: NumScan) -> Step {
    match s {
        NumScan::Done { end, big_int } => Step::Unit {
            unit: UnitView::Number { radix, big_int, raw: b.subrange(q, end) },
            end,
        },
        NumScan::Fail { msg, at } => Step::Fail { msg, at },
    }
}

/// A number that starts with `0` at `q`.
pub open spec fn zero_step(b: Seq<u8>, q: int) -> Step {
    if byte_is(b, q + 1, 'x' as u8) || byte_is(b, q + 1, 'X' as u8) {
        number_step(b, q, Radix::Hex, radix_scan(b, q + 2, 16))
    } else if byte_is(b, q + 1, 'o' as u8) || byte_is(b, q + 1, 'O' as u8) {
        number_step(b, q, Radix::Octal, radix_scan(b, q + 2, 8))
    } else if byte_is(b, q + 1, 'b' as u8) || byte_is(b, q + 1, 'B' as u8) {
        number_step(b, q, Radix::Binary, radix_scan(b, q + 2, 2))
    } else {
        number_step(b, q, Radix::Decimal, decimal_scan(b, q + 1, true, true))
    }
}

/// `.` at `q`: the spread punctuator, a number with a leading point, or a dot.
pub open spec fn dot_step(b: Seq<u8>, q: int) -> Step {
    if byte_is(b, q + 1, '.' as u8) {
        if byte_is(b, q + 2, '.' as u8) {
            Step::Unit { unit: UnitView::Punctuator(Punctuator::Ellipsis), end: q + 3 }
        } else {
            Step::Fail { msg: double_dot_message(), at: q + 2 }
        }
    } else if q + 1 < b.len() && is_ascii_digit(b[q + 1]) {
        number_step(b, q, Radix::Decimal, decimal_scan(b, q + 2, false, true))
    } else {
        Step::Unit { unit: UnitView::Punctuator(Punctuator::Dot), end: q + 1 }
    }
}

/// `/` at `q`: a line comment, a block comment, `/=` or `/`.
pub open spec fn slash_step(b: Seq<u8>, q: int) -> Step {
    if byte_is(b, q + 1, '/' as u8) {
        Step::Unit {
            unit: UnitView::LineComment(b.subrange(q + 2, line_end(b, q + 2))),
            end: line_end(b, q + 2),
        }
    } else if byte_is(b, q + 1, '*' as u8) {
        block_step(b, q + 2)
    } else if byte_is(b, q + 1, '=' as u8) {
        Step::Unit { unit: UnitView::Punctuator(Punctuator::SlashAssign), end: q + 2 }
    } else {
        Step::Unit { unit: UnitView::Punctuator(Punctuator::Slash), end: q + 1 }
    }
}

/// One scan step at `q`, chosen by the leading byte.
pub open spec fn scan_step(b: Seq<u8>, q: int) -> Step {
    let c = b[q];
    match entry_of(c) {
        Entry::Ident | Entry::Word => {
            let e = ident_end(b, q + 1);
            Step::Unit { unit: word_unit(b.subrange(q, e)), end: e }
        },
        Entry::Zero => zero_step(b, q),
        Entry::Digit => number_step(b, q, Radix::Decimal, decimal_scan(b, q + 1, true, true)),
        Entry::Dot => dot_step(b, q),
        Entry::Slash => slash_step(b, q),
        Entry::Quote => string_step(b, q),
        Entry::Backtick => template_step(b, q),
        Entry::Backslash => Step::Fail { msg: escape_ident_message(), at: q + 1 },
        Entry::Punct => match punct_at(b, q) {
            Some(p) => Step::Unit { unit: UnitView::Punctuator(p), end: q + p.spelling().len() },
            None => Step::Fail { msg: invalid_char_message(char_text(b, q)), at: q + 1 },
        },
        Entry::Unicode => if id_start(char_at(b, q) as char) {
            let e = ident_end(b, q + width_at(b, q));
            Step::Unit { unit: UnitView::Ident(b.subrange(q, e)), end: e }
        } else {
            Step::Fail { msg: invalid_unicode_message(char_text(b, q)), at: q + width_at(b, q) }
        },
        Entry::Invalid | Entry::Unreachable => Step::Fail {
            msg: invalid_char_message(char_text(b, q)),
            at: q + 1,
        },
    }
}

/// Scans a word: the `skip_width` bytes at the cursor, then every identifier
/// part after them. Returns the whole word.
pub fn scan_word<'s>(sn: &mut Scanner<'s>, skip_width: usize) -> (r: &'s str)
    requires
        old(sn).wf(),
        old(sn).pos() + skip_width <= old(sn).text().len(),
        is_char_boundary(old(sn).text(), old(sn).pos() + skip_width),
    ensures
        final(sn).advanced_from(old(sn)),
        final(sn).pos() == ident_end(old(sn).text(), old(sn).pos() + skip_width),
        r.spec_bytes() == old(sn).text().subrange(old(sn).pos(), final(sn).pos()),
{
    let start = sn.position();
    sn.skip(skip_width);
    sn.skip_ident_part();
    sn.sub_str(start, sn.position())
}

fn scan_number_after<'s>(sn: &Scanner<'s>, start: usize, radix: Radix, scan: Result<bool>) -> (r:
    Result<Unit<'s>>)
    requires
        sn.wf(),
        start <= sn.pos(),
        is_char_boundary(sn.text(), start as int),
    ensures
        forall|s: NumScan|
            #[trigger] num_outcome(scan, s, sn.pos()) ==> outcome_is(
                r,
                number_step(sn.text(), start as int, radix, s),
                sn.pos(),
            ),
{
    match scan {
        Ok(big_int) => {
            let raw = sn.sub_str(start, sn.position());
            Ok(Unit::Lit(Lit::Number(Number { raw, radix, big_int })))
        },
        Err(e) => Err(e),
    }
}

fn scan_zero<'s>(sn: &mut Scanner<'s>) -> (r: Result<Unit<'s>>)
    requires
        old(sn).wf(),
        old(sn).pos() < old(sn).text().len(),
        old(sn).text()[old(sn).pos()] == '0' as u8,
    ensures
        final(sn).advanced_from(old(sn)),
        outcome_is(r, zero_step(old(sn).text(), old(sn).pos()), final(sn).pos()),
{
    let start = sn.position();
    sn.bump();
    if sn.eat('x' as u8) || sn.eat('X' as u8) {
        let scan = sn.scan_radix_int(16);
        scan_number_after(sn, start, Radix::Hex, scan)
    } else if sn.eat('o' as u8) || sn.eat('O' as u8) {
        let scan = sn.scan_radix_int(8);
        scan_number_after(sn, start, Radix::Octal, scan)
    } else if sn.eat('b' as u8) || sn.eat('B' as u8) {
        let scan = sn.scan_radix_int(2);
        scan_number_after(sn, start, Radix::Binary, scan)
    } else {
        let scan = sn.scan_decimal::<true>();
        scan_number_after(sn, start, Radix::Decimal, scan)
    }
}

fn scan_dot<'s>(sn: &mut Scanner<'s>) -> (r: Result<Unit<'s>>)
    requires
        old(sn).wf(),
        old(sn).pos() < old(sn).text().len(),
        old(sn).text()[old(sn).pos()] == '.' as u8,
    ensures
        final(sn).advanced_from(old(sn)),
        outcome_is(r, dot_step(old(sn).text(), old(sn).pos()), final(sn).pos()),
{
    let start = sn.position();
    sn.bump();
    if sn.eat('.' as u8) {
        if sn.eat('.' as u8) {
            Ok(Unit::Punctuator(Punctuator::Ellipsis))
        } else {
            Err(info("Invalid punctuator '..'"))
        }
    } else if !sn.is_empty() && '0' as u8 <= sn.cur() && sn.cur() <= '9' as u8 {
        sn.bump();
        let scan = sn.scan_decimal::<false>();
        scan_number_after(sn, start, Radix::Decimal, scan)
    } else {
        Ok(Unit::Punctuator(Punctuator::Dot))
    }
}

fn scan_slash<'s>(sn: &mut Scanner<'s>) -> (r: Result<Unit<'s>>)
    requires
        old(sn).wf(),
        old(sn).pos() < old(sn).text().len(),
        old(sn).text()[old(sn).pos()] == '/' as u8,
    ensures
        final(sn).advanced_from(old(sn)),
        outcome_is(r, slash_step(old(sn).text(), old(sn).pos()), final(sn).pos()),
{
    sn.bump();
    if sn.eat('/' as u8) {
        let start = sn.position();
        sn.skip_line();
        Ok(Unit::Comment(Comment::LineComment(sn.sub_str(start, sn.position()))))
    } else if sn.eat('*' as u8) {
        sn.scan_block_comment()
    } else if sn.eat('=' as u8) {
        Ok(Unit::Punctuator(Punctuator::SlashAssign))
    } else {
        Ok(Unit::Punctuator(Punctuator::Slash))
    }
}

fn scan_unicode<'s>(sn: &mut Scanner<'s>) -> (r: Result<Unit<'s>>)
    requires
        old(sn).wf(),
        old(sn).pos() < old(sn).text().len(),
    ensures
        final(sn).advanced_from(old(sn)),
        ({
            let b = old(sn).text();
            let q = old(sn).pos();
            if id_start(char_at(b, q) as char) {
                let e = ident_end(b, q + width_at(b, q));
                outcome_is(r, Step::Unit { unit: UnitView::Ident(b.subrange(q, e)), end: e }, final(sn).pos())
            } else {
                outcome_is(
                    r,
                    Step::Fail { msg: invalid_unicode_message(char_text(b, q)), at: q + width_at(b, q) },
                    final(sn).pos(),
                )
            }
        }),
{
    proof {
        lemma_char_step(sn.text(), sn.pos());
    }
    let (ch, width) = sn.decode_char();
    proof {
        char_u32_cast(ch, ch as u32);
    }
    if is_ident_start(ch) {
        Ok(Unit::Ident(Ident::new(scan_word(sn, width))))
    } else {
        let found = sn.cur_str();
        sn.skip(width);
        Err(info_quoted("Invalid Unicode char '", found))
    }
}

/// Scans the unit at the cursor, dispatching on its leading byte.
pub fn scan_unit<'s>(sn: &mut Scanner<'s>) -> (r: Result<Unit<'s>>)
    requires
        old(sn).wf(),
        old(sn).pos() < old(sn).text().len(),
    ensures
        final(sn).advanced_from(old(sn)),
        outcome_is(r, scan_step(old(sn).text(), old(sn).pos()), final(sn).pos()),
{
    proof {
        lemma_char_step(sn.text(), sn.pos());
    }
    let c = sn.cur();
    match lookup(c) {
        Entry::Ident => {
            let w = scan_word(sn, 1);
            Ok(Unit::Ident(Ident::new(w)))
        },
        Entry::Word => {
            let w = scan_word(sn, 1);
            match lookup_keyword(w.as_bytes()) {
                Some(k) => Ok(Unit::Keyword(k)),
                None => Ok(Unit::Ident(Ident::new(w))),
            }
        },
        Entry::Zero => scan_zero(sn),
        Entry::Digit => {
            let start = sn.position();
            sn.bump();
            let scan = sn.scan_decimal::<true>();
            scan_number_after(sn, start, Radix::Decimal, scan)
        },
        Entry::Dot => scan_dot(sn),
        Entry::Slash => scan_slash(sn),
        Entry::Quote => sn.scan_string(),
        Entry::Backtick => sn.scan_template(),
        Entry::Backslash => {
            sn.bump();
            Err(info("Unicode escape in identifier is not supported"))
        },
        Entry::Punct => match sn.scan_punctuator() {
            Some(p) => Ok(Unit::Punctuator(p)),
            None => {
                let found = sn.cur_str();
                sn.bump();
                Err(info_quoted("Invalid char '", found))
            },
        },
        Entry::Unicode => scan_unicode(sn),
        Entry::Invalid | Entry::Unreachable => {
            // The cursor stands on a character boundary, which never holds a
            // byte of the unreachable class.
            proof {
                assert(entry_of(c) == Entry::Invalid);
            }
            let found = sn.cur_str();
            sn.bump();
            Err(info_quoted("Invalid char '", found))
        },
    }
}

} // verus!
