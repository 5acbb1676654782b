//! What the scan steps guarantee about positions and source text.
use vstd::prelude::*;
use vstd::utf8::*;

use crate::scanner::comment::block_end;
use crate::scanner::entry::{entry_of, number_step, scan_step, Entry};
use crate::scanner::ident::ident_end;
use crate::scanner::hashbang::starts_hashbang;
use crate::scanner::line::{is_line_terminator, line_end};
use crate::scanner::lit::Radix;
use crate::scanner::number::{decimal_scan, radix_digits, radix_scan, NumScan};
use crate::scanner::punctuator::{punct_at, Punctuator};
use crate::scanner::string::{string_close, template_close};
use crate::scanner::text::{char_at, lemma_ascii_step, lemma_char_step, width_at};
use crate::scanner::unit::{unit_source, Step, UnitView};
use crate::scanner::whitespace::space_end;

verus! {

broadcast use vstd::utf8::group_utf8_lib;

proof fn lemma_space_end_bounds(b: Seq<u8>, p: int)
    requires
        valid_utf8(b),
        is_char_boundary(b, p),
        0 <= p <= b.len(),
    ensures
        p <= space_end(b, p) <= b.len(),
        is_char_boundary(b, space_end(b, p)),
    decreases b.len() - p,
{
    if 0 <= p < b.len() {
        lemma_char_step(b, p);
        lemma_space_end_bounds(b, p + width_at(b, p));
    }
}

proof fn lemma_line_end_bounds(b: Seq<u8>, p: int)
    requires
        0 <= p <= b.len(),
    ensures
        p <= line_end(b, p) <= b.len(),
    decreases b.len() - p,
{
    if 0 <= p < b.len() && 0 < width_at(b, p) <= b.len() - p {
        lemma_line_end_bounds(b, p + width_at(b, p));
    }
}

proof fn lemma_line_end_boundary(b: Seq<u8>, p: int)
    requires
        valid_utf8(b),
        is_char_boundary(b, p),
        0 <= p <= b.len(),
    ensures
        is_char_boundary(b, line_end(b, p)),
    decreases b.len() - p,
{
    if 0 <= p < b.len() {
        lemma_char_step(b, p);
        lemma_line_end_boundary(b, p + width_at(b, p));
    }
}

proof fn lemma_ident_end_bounds(b: Seq<u8>, p: int)
    requires
        0 <= p <= b.len(),
    ensures
        p <= ident_end(b, p) <= b.len(),
    decreases b.len() - p,
{
    if 0 <= p < b.len() && 0 < width_at(b, p) <= b.len() - p {
        lemma_ident_end_bounds(b, p + width_at(b, p));
    }
}

proof fn lemma_block_end_bounds(b: Seq<u8>, p: int)
    requires
        0 <= p <= b.len(),
    ensures
        block_end(b, p) matches Some(e) ==> p <= e && e + 2 <= b.len() && b[e] == '*' as u8 && b[e
            + 1] == '/' as u8,
    decreases b.len() - p,
{
    if 0 <= p < b.len() && 0 < width_at(b, p) <= b.len() - p {
        lemma_block_end_bounds(b, p + width_at(b, p));
    }
}

proof fn lemma_string_close_bounds(b: Seq<u8>, q: int, quote: u8)
    requires
        0 <= q <= b.len(),
    ensures
        match string_close(b, q, quote) {
            Ok(e) => q <= e < b.len() && b[e] == quote,
            Err(at) => q <= at <= b.len(),
        },
    decreases b.len() - q,
{
    if 0 <= q < b.len() {
        if q + 3 <= b.len() {
            lemma_string_close_bounds(b, q + 3, quote);
        }
        if q + 1 < b.len() && 0 < width_at(b, q + 1) <= b.len() - q - 1 {
            lemma_string_close_bounds(b, q + 1 + width_at(b, q + 1), quote);
        }
        if 0 < width_at(b, q) <= b.len() - q {
            lemma_string_close_bounds(b, q + width_at(b, q), quote);
        }
    }
}

proof fn lemma_template_close_bounds(b: Seq<u8>, q: int)
    requires
        0 <= q <= b.len(),
    ensures
        match template_close(b, q) {
            Ok(e) => q <= e < b.len() && b[e] == '`' as u8,
            Err(at) => q <= at <= b.len(),
        },
    decreases b.len() - q,
{
    if 0 <= q < b.len() {
        if q + 1 < b.len() && 0 < width_at(b, q + 1) <= b.len() - q - 1 {
            lemma_template_close_bounds(b, q + 1 + width_at(b, q + 1));
        }
        if 0 < width_at(b, q) <= b.len() - q {
            lemma_template_close_bounds(b, q + width_at(b, q));
        }
    }
}

/// Where a numeric scan from `q` ends or fails lies in `[q, len]`.
pub open spec fn num_in_bounds(s: NumScan, q: int, len: int) -> bool {
    match s {
        NumScan::Done { end, .. } => q <= end <= len,
        NumScan::Fail { at, .. } => q <= at <= len,
    }
}

proof fn lemma_decimal_bounds(b: Seq<u8>, q: int, dot: bool, exp: bool)
    requires
        0 <= q <= b.len(),
    ensures
        num_in_bounds(decimal_scan(b, q, dot, exp), q, b.len() as int),
    decreases b.len() - q,
{
    if 0 <= q < b.len() {
        let c = b[q];
        if '0' as u8 <= c <= '9' as u8 {
            lemma_decimal_bounds(b, q + 1, dot, exp);
        } else if c == '_' as u8 {
            if q + 2 <= b.len() {
                lemma_decimal_bounds(b, q + 2, dot, exp);
            }
        } else if c == '.' as u8 && dot {
            lemma_decimal_bounds(b, q + 1, false, exp);
        } else if (c == 'e' as u8 || c == 'E' as u8) && exp {
            let d = if q + 1 < b.len() && (b[q + 1] == '+' as u8 || b[q + 1] == '-' as u8) {
                q + 2
            } else {
                q + 1
            };
            if d < b.len() {
                lemma_decimal_bounds(b, d + 1, dot, false);
            }
        }
    }
}

proof fn lemma_radix_digits_bounds(b: Seq<u8>, q: int, radix: u8)
    requires
        0 <= q <= b.len(),
    ensures
        num_in_bounds(radix_digits(b, q, radix), q, b.len() as int),
    decreases b.len() - q,
{
    if 0 <= q < b.len() {
        if q + 1 <= b.len() {
            lemma_radix_digits_bounds(b, q + 1, radix);
        }
        if q + 2 <= b.len() {
            lemma_radix_digits_bounds(b, q + 2, radix);
        }
    }
}

proof fn lemma_radix_bounds(b: Seq<u8>, q: int, radix: u8)
    requires
        0 <= q <= b.len(),
    ensures
        num_in_bounds(radix_scan(b, q, radix), q, b.len() as int),
{
    if 0 <= q < b.len() {
        lemma_radix_digits_bounds(b, q + 1, radix);
    }
}

/// A recognised punctuator is spelled by the bytes it was recognised from.
proof fn lemma_punct_source(b: Seq<u8>, q: int)
    requires
        punct_at(b, q) is Some,
    ensures
        q + (punct_at(b, q)->0).spelling().len() <= b.len(),
        b.subrange(q, q + (punct_at(b, q)->0).spelling().len()) == (punct_at(b, q)->0).spelling(),
{
    let p = punct_at(b, q)->0;
    assert(b.subrange(q, q + p.spelling().len()) =~= p.spelling());
}

/// A number step covers `[q, end)` with its raw text.
proof fn lemma_number_source(b: Seq<u8>, q: int, radix: Radix, s: NumScan)
    requires
        0 <= q,
        num_in_bounds(s, q + 1, b.len() as int),
    ensures
        step_covers(b, q, number_step(b, q, radix, s)),
{
}

/// A step from `q` moves forward within the input, and a unit it gives is
/// spelled by the bytes it covers.
pub open spec fn step_covers(b: Seq<u8>, q: int, s: Step) -> bool {
    match s {
        Step::Unit { unit, end } => q < end <= b.len() && b.subrange(q, end) == unit_source(unit),
        Step::Fail { at, .. } => q < at <= b.len(),
    }
}

/// Scanning a punctuator's exact spelling yields that punctuator and consumes
/// the whole spelling.
pub proof fn lemma_punctuator_spelling(p: Punctuator)
    ensures
        scan_step(p.spelling(), 0) == (Step::Unit {
            unit: UnitView::Punctuator(p),
            end: p.spelling().len() as int,
        }),
{
}

/// Every scan step at a character boundary moves forward within the input; a
/// unit that it yields is spelled by exactly the bytes it covers: the spelling
/// of a keyword or punctuator, the raw text of an identifier or number, a
/// comment's text with its delimiters.
pub proof fn lemma_step_source(b: Seq<u8>, q: int)
    requires
        valid_utf8(b),
        is_char_boundary(b, q),
        0 <= q < b.len(),
    ensures
        step_covers(b, q, scan_step(b, q)),
{
    lemma_char_step(b, q);
    let c = b[q];
    match entry_of(c) {
        Entry::Ident | Entry::Word => {
            lemma_ident_end_bounds(b, q + 1);
            let e = ident_end(b, q + 1);
            let w = b.subrange(q, e);
            assert(w[0] == c);
        },
        Entry::Zero => {
            lemma_decimal_bounds(b, q + 1, true, true);
            if q + 2 <= b.len() {
                lemma_radix_bounds(b, q + 2, 16);
                lemma_radix_bounds(b, q + 2, 8);
                lemma_radix_bounds(b, q + 2, 2);
            }
            lemma_number_source(b, q, Radix::Decimal, decimal_scan(b, q + 1, true, true));
            if q + 2 <= b.len() {
                lemma_number_source(b, q, Radix::Hex, radix_scan(b, q + 2, 16));
                lemma_number_source(b, q, Radix::Octal, radix_scan(b, q + 2, 8));
                lemma_number_source(b, q, Radix::Binary, radix_scan(b, q + 2, 2));
            }
        },
        Entry::Digit => {
            lemma_decimal_bounds(b, q + 1, true, true);
            lemma_number_source(b, q, Radix::Decimal, decimal_scan(b, q + 1, true, true));
        },
        Entry::Dot => {
            if q + 2 <= b.len() {
                lemma_decimal_bounds(b, q + 2, false, true);
                lemma_number_source(b, q, Radix::Decimal, decimal_scan(b, q + 2, false, true));
            }
            assert(b.subrange(q, q + 1) =~= Punctuator::Dot.spelling());
            if q + 3 <= b.len() && b[q + 1] == '.' as u8 && b[q + 2] == '.' as u8 {
                assert(b.subrange(q, q + 3) =~= Punctuator::Ellipsis.spelling());
            }
        },
        Entry::Slash => {
            if q + 2 <= b.len() {
                lemma_line_end_bounds(b, q + 2);
                lemma_block_end_bounds(b, q + 2);
                let e = line_end(b, q + 2);
                if b[q + 1] == '/' as u8 {
                    assert(b.subrange(q, e) =~= seq!['/' as u8, '/' as u8] + b.subrange(q + 2, e));
                }
                if b[q + 1] == '=' as u8 {
                    assert(b.subrange(q, q + 2) =~= Punctuator::SlashAssign.spelling());
                }
                if b[q + 1] == '*' as u8 && block_end(b, q + 2) is Some {
                    let e = block_end(b, q + 2)->0;
                    assert(b.subrange(q, e + 2) =~= seq!['/' as u8, '*' as u8] + b.subrange(q + 2, e)
                        + seq!['*' as u8, '/' as u8]);
                }
            }
            assert(b.subrange(q, q + 1) =~= Punctuator::Slash.spelling());
        },
        Entry::Punct => {
            if punct_at(b, q) is Some {
                lemma_punct_source(b, q);
            }
        },
        Entry::Unicode => {
            lemma_ident_end_bounds(b, q + width_at(b, q));
        },
        Entry::Backtick => {
            lemma_template_close_bounds(b, q + 1);
            if let Ok(e) = template_close(b, q + 1) {
                assert(b.subrange(q, e + 1) =~= seq!['`' as u8] + b.subrange(q + 1, e) + seq![
                    '`' as u8,
                ]);
            }
        },
        Entry::Quote => {
            lemma_string_close_bounds(b, q + 1, c);
            if let Ok(e) = string_close(b, q + 1, c) {
                assert(b.subrange(q, e + 1) =~= seq![c] + b.subrange(q + 1, e) + seq![c]);
            }
        },
        _ => {},
    }
}

/// The spans of a lexing session are ordered and spell their units: from a
/// cursor at `p`, the next token starts at `space_end(b, p)`, not before `p`;
/// it ends after it starts, and the bytes it covers are the unit's source.
/// Since the following token starts at or after that end, the starts of
/// successive tokens strictly increase.
pub proof fn lemma_token_spans(b: Seq<u8>, p: int)
    requires
        valid_utf8(b),
        is_char_boundary(b, p),
        0 <= p <= b.len(),
    ensures
        p <= space_end(b, p) <= b.len(),
        space_end(b, p) < b.len() ==> step_covers(b, space_end(b, p), scan_step(b, space_end(b, p))),
{
    lemma_space_end_bounds(b, p);
    if space_end(b, p) < b.len() {
        lemma_step_source(b, space_end(b, p));
    }
}

/// A hashbang line is consumed up to, not including, the terminator of the
/// first line, and lexing resumes from there: the first token after it starts
/// at or after that terminator, so no token covers hashbang bytes.
pub proof fn lemma_hashbang_then_tokens(b: Seq<u8>)
    requires
        valid_utf8(b),
        starts_hashbang(b, 0),
    ensures
        2 <= line_end(b, 2) <= b.len(),
        line_end(b, 2) < b.len() ==> is_line_terminator(char_at(b, line_end(b, 2))),
        line_end(b, 2) <= space_end(b, line_end(b, 2)),
{
    lemma_ascii_step(b, 0);
    lemma_ascii_step(b, 1);
    lemma_line_end_bounds(b, 2);
    lemma_line_end_boundary(b, 2);
    lemma_line_end_stop(b, 2);
    lemma_space_end_bounds(b, line_end(b, 2));
}

proof fn lemma_line_end_stop(b: Seq<u8>, p: int)
    requires
        valid_utf8(b),
        is_char_boundary(b, p),
        0 <= p <= b.len(),
    ensures
        line_end(b, p) < b.len() ==> is_line_terminator(char_at(b, line_end(b, p))),
    decreases b.len() - p,
{
    if 0 <= p < b.len() {
        lemma_char_step(b, p);
        lemma_line_end_stop(b, p + width_at(b, p));
    }
}

} // verus!
