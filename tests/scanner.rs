use std::path::PathBuf;

use pai_lexer::error::Error;
use pai_lexer::loader::FileLoader;
use pai_lexer::scanner::ident::{self, Identifier};
use pai_lexer::scanner::line::is_unicode_line_terminator;
use pai_lexer::scanner::whitespace::{self, is_unicode_space};
use pai_lexer::scanner::{entry, Scanner};
use pai_lexer::Lexer;

#[test]
fn debug_scanner() {
    let loader = FileLoader {
        path_buf: PathBuf::from("./tests/fixtures/demo.ts"),
        bytes: b"#!/usr/bin/env node\nconst answer = 42n; // fixed\nexport default answer;\n".to_vec(),
    };

    let src = loader.source_code().unwrap();

    let Lexer { mut scanner, .. } = Lexer::new(src);

    println!("{:?}", scanner.scan_hashbang());

    while let Some(unit) = scanner.next() {
        println!("{:?}", unit)
    }
}

#[test]
fn source_code_of_valid_bytes() {
    let bytes = "let é = '中';\n".as_bytes().to_vec();
    let loader = FileLoader { path_buf: PathBuf::from("a.ts"), bytes: bytes.clone() };
    assert_eq!(loader.source_code().unwrap().as_bytes(), &bytes[..]);
    let empty = FileLoader { path_buf: PathBuf::from("b.ts"), bytes: Vec::new() };
    assert_eq!(empty.source_code().unwrap(), "");
}

#[test]
fn source_code_of_invalid_bytes() {
    for bytes in [vec![0x61, 0x80], vec![0xC0, 0xAF], vec![0xED, 0xA0, 0x80], vec![0xF5, 0x80, 0x80, 0x80]] {
        let loader = FileLoader { path_buf: PathBuf::from("c.ts"), bytes };
        match loader.source_code() {
            Err(Error::Info(m)) => assert_eq!(m, "Source is not valid UTF-8"),
            other => panic!("{:?}", other),
        }
    }
}

#[test]
fn decode_char_widths() {
    for (s, c, w) in [("a", 'a', 1), ("é", 'é', 2), ("Ā", 'Ā', 2), ("€", '€', 3), ("😀", '😀', 4)] {
        let sn = Scanner::new(s);
        assert_eq!(sn.decode_char(), (c, w));
        assert_eq!(sn.cur_char(), c);
    }
    let sn = Scanner::new("é");
    assert_eq!(sn.cur_ascii(), None);
    assert_eq!(Scanner::new("z").cur_ascii(), Some('z'));
    let mut sn = Scanner::new("😀x");
    sn.skip_char();
    assert_eq!(sn.position(), 4);
    assert_eq!(sn.len(), 1);
}

#[test]
fn cursor_primitives() {
    let mut sn = Scanner::new("ab=c");
    assert_eq!(sn.peek(2), b'=');
    assert!(!sn.eat(b'b'));
    assert!(sn.eat(b'a'));
    assert_eq!(sn.cur(), b'b');
    sn.skip(2);
    assert_eq!(sn.sub_str(0, 3), "ab=");
    assert_eq!(sn.prev(), b'=');
    sn.bump();
    assert!(sn.is_empty());
    assert!(!sn.eat(b'c'));
}

#[test]
fn digit_classes() {
    assert!(Scanner::new("1").is_binary_digit());
    assert!(!Scanner::new("2").is_binary_digit());
    assert!(Scanner::new("7").is_octal_digit());
    assert!(!Scanner::new("8").is_octal_digit());
    assert!(Scanner::new("f").is_hex_digit());
    assert!(Scanner::new("F").is_digit(16));
    assert!(!Scanner::new("g").is_digit(16));
    assert!(!Scanner::new("").is_digit(2));
}

#[test]
fn identifier_classes() {
    assert!('a'.is_ident_start());
    assert!('$'.is_ident_start());
    assert!(!'1'.is_ident_start());
    assert!('1'.is_ident_part());
    assert!('中'.is_ident_start());
    assert!(!'€'.is_ident_start());
    assert!(!'\u{200D}'.is_ident_start());
    assert!('\u{200D}'.is_ident_part());
    assert!('\u{0301}'.is_ident_part());
    assert!(!'\u{0301}'.is_ident_start());
    assert!(!'-'.is_ident_part());
}

#[test]
fn space_and_line_tables() {
    assert!(is_unicode_space('\u{a0}'));
    assert!(is_unicode_space('\u{2005}'));
    assert!(!is_unicode_space('\u{200b}'));
    assert!(is_unicode_line_terminator('\u{2029}'));
    assert!(!is_unicode_line_terminator('\n'));
    assert_eq!(whitespace::lookup(b' '), Some(whitespace::Handler::Space));
    assert_eq!(whitespace::lookup(b'\n'), Some(whitespace::Handler::NewLine));
    assert_eq!(whitespace::lookup(0xE3), Some(whitespace::Handler::Unicode));
    assert_eq!(whitespace::lookup(b'a'), None);
    assert_eq!(pai_lexer::scanner::line::lookup(b'\r'), pai_lexer::scanner::line::Handler::NewLine);
    assert_eq!(pai_lexer::scanner::line::lookup(0xE2), pai_lexer::scanner::line::Handler::MaybeTerminator);
    assert_eq!(pai_lexer::scanner::line::lookup(0x80), pai_lexer::scanner::line::Handler::Invalid);
    assert_eq!(ident::lookup(b'$'), Some(ident::Handler::Ascii));
    assert_eq!(ident::lookup(b'\\'), None);
    assert_eq!(entry::lookup(b'z'), entry::Entry::Word);
    assert_eq!(entry::lookup(b'Z'), entry::Entry::Ident);
    assert_eq!(entry::lookup(0xBF), entry::Entry::Unreachable);
}

#[test]
fn skip_line_and_ident_part() {
    let mut sn = Scanner::new("abc déf\u{2029}x");
    sn.skip_ident_part();
    assert_eq!(sn.position(), 3);
    sn.skip_line();
    assert_eq!(sn.sub_str(0, sn.position()), "abc déf");
    let mut sn = Scanner::new("no end");
    sn.skip_line();
    assert!(sn.is_empty());
}

fn escape(s: &str) -> (Result<char, Error>, usize) {
    let mut sn = Scanner::new(s);
    let r = sn.scan_escape_unicode();
    (r, sn.position())
}

#[test]
fn unicode_escapes() {
    assert_eq!(escape("0041").0.unwrap(), 'A');
    assert_eq!(escape("{1F600}").0.unwrap(), '😀');
    assert_eq!(escape("{1F600}x").1, 7);
    assert_eq!(escape("{0000041}").0.unwrap(), 'A');
    assert!(matches!(escape("{}").0, Err(Error::ParseInt(_))));
    assert!(matches!(escape("{123456789}").0, Err(Error::ParseInt(_))));
    match escape("{110000}") {
        (Err(Error::Info(m)), pos) => {
            assert_eq!(m, "Invalid escape unicode CodePoint '110000'");
            assert_eq!(pos, 7);
        },
        other => panic!("{:?}", other),
    }
    assert!(matches!(escape("D800").0, Err(Error::CharTryFrom(_))));
    assert!(matches!(escape("{DFFF}").0, Err(Error::CharTryFrom(_))));
    match escape("00g1").0 {
        Err(Error::Info(m)) => assert_eq!(m, "Invalid escape unicode HexDigit 'g'"),
        other => panic!("{:?}", other),
    }
    match escape("{12").0 {
        Err(Error::Info(m)) => assert_eq!(m, "Unterminated escape unicode CodePoint"),
        other => panic!("{:?}", other),
    }
}

#[test]
fn scan_number_entry() {
    let mut sn = Scanner::new("42;");
    assert!(sn.scan_number().is_ok());
    assert_eq!(sn.position(), 2);
}
