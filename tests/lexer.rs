use pai_lexer::error::Error;
use pai_lexer::scanner::comment::Comment;
use pai_lexer::scanner::keyword::Keyword;
use pai_lexer::scanner::lit::{Lit, Radix};
use pai_lexer::scanner::punctuator::Punctuator;
use pai_lexer::scanner::unit::Unit;
use pai_lexer::scanner::Scanner;
use pai_lexer::token::span::Span;
use pai_lexer::{Lexer, Tokenize};

fn first(src: &str) -> (Result<Unit<'_>, Error>, usize) {
    let mut sn = Scanner::new(src);
    let r = sn.next().expect("a unit");
    (r, sn.position())
}

fn info(r: Result<Unit<'_>, Error>) -> String {
    match r {
        Err(Error::Info(m)) => m,
        other => panic!("expected a diagnostic, got {:?}", other),
    }
}

fn number(r: Result<Unit<'_>, Error>) -> (String, Radix, bool) {
    match r {
        Ok(Unit::Lit(Lit::Number(n))) => (n.raw.to_string(), n.radix, n.big_int),
        other => panic!("expected a number, got {:?}", other),
    }
}

#[test]
fn separator_literal_spans_whole_text() {
    let (r, pos) = first("1_000");
    assert_eq!(number(r), ("1_000".to_string(), Radix::Decimal, false));
    assert_eq!(pos, 5);
}

#[test]
fn double_separator_fails_at_second_underscore() {
    let (r, pos) = first("1__000");
    assert_eq!(info(r), "Invalid Numeric separator");
    assert_eq!(pos, 2);
}

#[test]
fn separator_must_precede_a_digit() {
    for (src, at) in [("1_", 2), ("1_.5", 2), ("1_e3", 2), ("1.5_;", 4), ("2_3_", 4)] {
        let (r, pos) = first(src);
        assert_eq!(info(r), "Invalid Numeric separator", "{}", src);
        assert_eq!(pos, at, "{}", src);
    }
    assert_eq!(number(first("1_2.3_4e5_6").0).0, "1_2.3_4e5_6");
}

#[test]
fn hex_literal_is_tagged_hex() {
    let (r, pos) = first("0x1F");
    assert_eq!(number(r), ("0x1F".to_string(), Radix::Hex, false));
    assert_eq!(pos, 4);
}

#[test]
fn hex_prefix_without_digit_fails() {
    let (r, _) = first("0x");
    let m = info(r);
    assert!(m.starts_with("Invalid 16 radix digit"), "{}", m);
    let (r, _) = first("0xg\n");
    assert_eq!(info(r), "Invalid 16 radix digit 'g'");
}

#[test]
fn other_radix_literals() {
    assert_eq!(number(first("0o17").0), ("0o17".to_string(), Radix::Octal, false));
    assert_eq!(number(first("0b101").0), ("0b101".to_string(), Radix::Binary, false));
    assert_eq!(number(first("0xFFn").0), ("0xFFn".to_string(), Radix::Hex, true));
    assert_eq!(number(first("0b1_0").0), ("0b1_0".to_string(), Radix::Binary, false));
    assert_eq!(info(first("0b2").0), "Invalid 2 radix digit '2'");
    assert_eq!(info(first("0o1_9").0), "Invalid Numeric separator");
}

#[test]
fn big_int_suffix() {
    assert_eq!(number(first("123n").0), ("123n".to_string(), Radix::Decimal, true));
    let (r, pos) = first("1.5n");
    assert_eq!(info(r), "Invalid BigInt suffix after a decimal point or exponent");
    assert_eq!(pos, 3);
    assert!(first("1e3n").0.is_err());
}

#[test]
fn decimal_forms() {
    for s in ["0", "123", "0.5", ".5", "1.5e10", "1.5e+10", "2E-3", "0123"] {
        let (r, pos) = first(s);
        assert_eq!(number(r), (s.to_string(), Radix::Decimal, false));
        assert_eq!(pos, s.len());
    }
    let (r, pos) = first("1.5.x");
    assert_eq!(number(r).0, "1.5");
    assert_eq!(pos, 3);
}

#[test]
fn exponent_needs_digit() {
    let (r, pos) = first("1e+;");
    assert_eq!(info(r), "Invalid DecimalLiteral ExponentPart");
    assert_eq!(pos, 3);
}

#[test]
fn keyword_and_identifiers() {
    assert!(matches!(first("class").0, Ok(Unit::Keyword(Keyword::Class))));
    match first("classic").0 {
        Ok(Unit::Ident(i)) => assert_eq!(i.raw, "classic"),
        other => panic!("{:?}", other),
    }
    match first("_class").0 {
        Ok(Unit::Ident(i)) => assert_eq!(i.raw, "_class"),
        other => panic!("{:?}", other),
    }
    match first("Class").0 {
        Ok(Unit::Ident(i)) => assert_eq!(i.raw, "Class"),
        other => panic!("{:?}", other),
    }
}

#[test]
fn every_keyword_is_recognised() {
    let words = [
        ("await", Keyword::Await), ("break", Keyword::Break), ("case", Keyword::Case),
        ("catch", Keyword::Catch), ("class", Keyword::Class), ("const", Keyword::Const),
        ("continue", Keyword::Continue), ("debugger", Keyword::Debugger),
        ("default", Keyword::Default), ("delete", Keyword::Delete), ("do", Keyword::Do),
        ("else", Keyword::Else), ("enum", Keyword::Enum), ("export", Keyword::Export),
        ("extends", Keyword::Extends), ("false", Keyword::False), ("finally", Keyword::Finally),
        ("for", Keyword::For), ("function", Keyword::Function), ("if", Keyword::If),
        ("import", Keyword::Import), ("in", Keyword::In), ("instanceof", Keyword::InstanceOf),
        ("let", Keyword::Let), ("new", Keyword::New), ("null", Keyword::Null),
        ("return", Keyword::Return), ("super", Keyword::Super), ("switch", Keyword::Switch),
        ("this", Keyword::This), ("throw", Keyword::Throw), ("true", Keyword::True),
        ("try", Keyword::Try), ("typeof", Keyword::Typeof), ("var", Keyword::Var),
        ("void", Keyword::Void), ("while", Keyword::While), ("with", Keyword::With),
        ("yield", Keyword::Yield),
    ];
    for (s, k) in words {
        match first(s) {
            (Ok(Unit::Keyword(got)), pos) => {
                assert_eq!(got, k);
                assert_eq!(pos, s.len());
                assert_eq!(k.as_bytes(), s.as_bytes());
            },
            other => panic!("{}: {:?}", s, other),
        }
    }
}

#[test]
fn block_comment_content() {
    let (r, pos) = first("/* a */");
    match r {
        Ok(Unit::Comment(Comment::BlockComment(c))) => assert_eq!(c, " a "),
        other => panic!("{:?}", other),
    }
    assert_eq!(pos, 7);
    match first("/* a **/").0 {
        Ok(Unit::Comment(Comment::BlockComment(c))) => assert_eq!(c, " a *"),
        other => panic!("{:?}", other),
    }
    match first("/* é\n ü */x").0 {
        Ok(Unit::Comment(Comment::BlockComment(c))) => assert_eq!(c, " é\n ü "),
        other => panic!("{:?}", other),
    }
}

#[test]
fn unterminated_block_comment_fails() {
    let (r, pos) = first("/* a");
    assert_eq!(info(r), "Unterminated block comment");
    assert_eq!(pos, 4);
}

#[test]
fn line_comment_stops_at_terminator() {
    let (r, pos) = first("// hi\u{2028}x");
    match r {
        Ok(Unit::Comment(Comment::LineComment(c))) => assert_eq!(c, " hi"),
        other => panic!("{:?}", other),
    }
    assert_eq!(pos, 5);
    match first("//end").0 {
        Ok(Unit::Comment(Comment::LineComment(c))) => assert_eq!(c, "end"),
        other => panic!("{:?}", other),
    }
}

#[test]
fn non_ascii_identifier_start() {
    let (r, pos) = first("中");
    match r {
        Ok(Unit::Ident(i)) => assert_eq!(i.raw, "中"),
        other => panic!("{:?}", other),
    }
    assert_eq!(pos, 3);
    match first("café\u{200D}x y").0 {
        Ok(Unit::Ident(i)) => assert_eq!(i.raw, "café\u{200D}x"),
        other => panic!("{:?}", other),
    }
}

#[test]
fn euro_sign_is_not_an_identifier_start() {
    let (r, pos) = first("€");
    assert_eq!(info(r), "Invalid Unicode char '€'");
    assert_eq!(pos, 3);
}

#[test]
fn hashbang_line_is_skipped() {
    let src = "#!/usr/bin/env node\nlet x = 1;\n";
    let mut lexer = Lexer::new(src);
    assert_eq!(lexer.hashbang(), Some("/usr/bin/env node"));
    assert_eq!(lexer.scanner.position(), 19);
    let t = lexer.next().unwrap().unwrap();
    assert!(matches!(t.unit, Unit::Keyword(Keyword::Let)));
    assert_eq!((t.span.lo, t.span.hi), (20, 23));
    assert_eq!(lexer.hashbang(), None);
}

#[test]
fn hashbang_only_at_start() {
    let mut sn = Scanner::new("x #!y\n");
    assert_eq!(sn.scan_hashbang(), None);
    assert_eq!(sn.position(), 0);
    let mut lexer = Lexer::new(" #!\n");
    assert_eq!(lexer.hashbang(), None);
    assert!(matches!(lexer.next().unwrap().unwrap().unit, Unit::Punctuator(Punctuator::Hash)));
    assert!(matches!(lexer.next().unwrap().unwrap().unit, Unit::Punctuator(Punctuator::Bang)));
}

const PUNCTUATORS: [(&str, Punctuator); 59] = [
    ("!", Punctuator::Bang), ("!=", Punctuator::NotEqual), ("!==", Punctuator::StrictNotEqual),
    ("#", Punctuator::Hash), ("%", Punctuator::Percent), ("%=", Punctuator::PercentAssign),
    ("&", Punctuator::Amp), ("&&", Punctuator::AmpAmp), ("&&=", Punctuator::AmpAmpAssign),
    ("&=", Punctuator::AmpAssign), ("(", Punctuator::LParen), (")", Punctuator::RParen),
    ("*", Punctuator::Star), ("**", Punctuator::StarStar), ("**=", Punctuator::StarStarAssign),
    ("*=", Punctuator::StarAssign), ("+", Punctuator::Plus), ("++", Punctuator::PlusPlus),
    ("+=", Punctuator::PlusAssign), (",", Punctuator::Comma), ("-", Punctuator::Minus),
    ("--", Punctuator::MinusMinus), ("-=", Punctuator::MinusAssign), (".", Punctuator::Dot),
    ("...", Punctuator::Ellipsis), ("/", Punctuator::Slash), ("/=", Punctuator::SlashAssign),
    (":", Punctuator::Colon), (";", Punctuator::Semicolon), ("<", Punctuator::Lt),
    ("<<", Punctuator::Shl), ("<<=", Punctuator::ShlAssign), ("<=", Punctuator::LtEq),
    ("=", Punctuator::Assign), ("==", Punctuator::Equal), ("===", Punctuator::StrictEqual),
    ("=>", Punctuator::Arrow), (">", Punctuator::Gt), (">=", Punctuator::GtEq),
    (">>", Punctuator::Shr), (">>=", Punctuator::ShrAssign), (">>>", Punctuator::UShr),
    (">>>=", Punctuator::UShrAssign), ("?", Punctuator::Question), ("?.", Punctuator::QuestionDot),
    ("??", Punctuator::Nullish), ("??=", Punctuator::NullishAssign), ("@", Punctuator::At),
    ("[", Punctuator::LBracket), ("]", Punctuator::RBracket), ("^", Punctuator::Caret),
    ("^=", Punctuator::CaretAssign), ("{", Punctuator::LBrace), ("|", Punctuator::Pipe),
    ("||", Punctuator::PipePipe), ("||=", Punctuator::PipePipeAssign), ("|=", Punctuator::PipeAssign),
    ("}", Punctuator::RBrace), ("~", Punctuator::Tilde),
];

#[test]
fn every_punctuator_by_maximal_munch() {
    for (s, p) in PUNCTUATORS {
        let (r, pos) = first(s);
        match r {
            Ok(Unit::Punctuator(got)) => assert_eq!(got, p, "{}", s),
            other => panic!("{}: {:?}", s, other),
        }
        assert_eq!(pos, s.len(), "{}", s);
    }
    let (r, pos) = first(">>>=1");
    assert!(matches!(r, Ok(Unit::Punctuator(Punctuator::UShrAssign))));
    assert_eq!(pos, 4);
}

fn string(r: Result<Unit<'_>, Error>) -> (String, u8) {
    match r {
        Ok(Unit::Lit(Lit::String(s))) => (s.raw.to_string(), s.quote),
        other => panic!("expected a string, got {:?}", other),
    }
}

#[test]
fn string_literals_keep_raw_text() {
    let (r, pos) = first("\"a\\\"b\" x");
    assert_eq!(string(r), ("a\\\"b".to_string(), b'"'));
    assert_eq!(pos, 6);
    let (r, pos) = first("'it''");
    assert_eq!(string(r), ("it".to_string(), b'\''));
    assert_eq!(pos, 4);
    assert_eq!(string(first("'a\\\r\nb'").0).0, "a\\\r\nb");
    assert_eq!(string(first("\"é\u{2028}\"").0).0, "é\u{2028}");
    assert_eq!(string(first("''").0).0, "");
}

#[test]
fn unterminated_string_literals() {
    let (r, pos) = first("\"abc\n\"");
    assert_eq!(info(r), "Unterminated string literal");
    assert_eq!(pos, 4);
    let (r, pos) = first("'x");
    assert_eq!(info(r), "Unterminated string literal");
    assert_eq!(pos, 2);
    let (r, pos) = first("'\\");
    assert_eq!(info(r), "Unterminated string literal");
    assert_eq!(pos, 2);
}

#[test]
fn templates_without_substitutions() {
    let (r, pos) = first("`a\nb\\`c` d");
    match r {
        Ok(Unit::Lit(Lit::Template(t))) => assert_eq!(t, "a\nb\\`c"),
        other => panic!("{:?}", other),
    }
    assert_eq!(pos, 8);
    let (r, pos) = first("`x ${y}`");
    assert_eq!(info(r), "Template substitution is not supported");
    assert_eq!(pos, 3);
    let (r, pos) = first("`abc");
    assert_eq!(info(r), "Unterminated template literal");
    assert_eq!(pos, 4);
    match first("`$x{}`").0 {
        Ok(Unit::Lit(Lit::Template(t))) => assert_eq!(t, "$x{}"),
        other => panic!("{:?}", other),
    }
}

#[test]
fn double_dot_is_invalid() {
    let (r, pos) = first("..x");
    assert_eq!(info(r), "Invalid punctuator '..'");
    assert_eq!(pos, 2);
}

#[test]
fn unsupported_starts_are_diagnostics() {
    assert_eq!(info(first("\\u0061").0), "Unicode escape in identifier is not supported");
    let (r, pos) = first("\u{1}");
    assert_eq!(info(r), "Invalid char '\u{1}'");
    assert_eq!(pos, 1);
}

#[test]
fn spans_reconstruct_source() {
    let src = "let x = 0x1F; // done\nif (a >= b) { /* c */ y += 1.5e3 + 'q' + `r` }\n";
    let mut lexer = src.tokenize();
    let mut last_lo = None;
    let mut count = 0;
    while let Some(t) = lexer.next() {
        let t = t.unwrap();
        let (lo, hi) = (t.span.lo as usize, t.span.hi as usize);
        assert!(lo < hi);
        if let Some(prev) = last_lo {
            assert!(lo > prev);
        }
        last_lo = Some(lo);
        let text = &src[lo..hi];
        match t.unit {
            Unit::Ident(i) => assert_eq!(i.raw, text),
            Unit::Lit(Lit::Number(n)) => assert_eq!(n.raw, text),
            Unit::Lit(Lit::String(s)) => assert_eq!(format!("'{}'", s.raw), text),
            Unit::Lit(Lit::Template(t)) => assert_eq!(format!("`{}`", t), text),
            Unit::Keyword(k) => assert_eq!(k.as_bytes(), text.as_bytes()),
            Unit::Punctuator(p) => {
                let s = PUNCTUATORS.iter().find(|(_, q)| *q == p).unwrap().0;
                assert_eq!(s, text);
            },
            Unit::Comment(Comment::LineComment(c)) => assert_eq!(format!("//{}", c), text),
            Unit::Comment(Comment::BlockComment(c)) => assert_eq!(format!("/*{}*/", c), text),
        }
        assert_eq!(t.span.tier, 0);
        count += 1;
    }
    assert_eq!(count, 22);
    assert!(lexer.next().is_none());
}

#[test]
fn lexer_stops_after_diagnostic() {
    let mut lexer = Lexer::new("a 1__2 b");
    assert!(lexer.next().unwrap().is_ok());
    assert!(lexer.next().unwrap().is_err());
    assert!(lexer.next().is_none());
}

#[test]
fn whitespace_run_is_skipped() {
    let mut sn = Scanner::new("\t\u{b}\u{c} \u{a0}\u{3000}\u{feff}\u{2028}\r\nx");
    sn.skip_space();
    assert_eq!(sn.cur(), b'x');
    let mut sn = Scanner::new("\u{2000}\u{200a}\u{202f}\u{205f}\u{1680}\u{2029}");
    assert!(sn.next().is_none());
    assert!(sn.is_empty());
    let mut sn = Scanner::new("\u{200b}");
    sn.skip_space();
    assert_eq!(sn.position(), 0);
}

#[test]
fn default_span_is_dummy() {
    assert_eq!(Span::default(), Span { lo: 0, hi: 0, tier: 0 });
}
