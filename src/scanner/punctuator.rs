//! The operator and punctuation spellings, and maximal-munch recognition of them.
use vstd::prelude::*;

use crate::scanner::text::byte_is;
use crate::scanner::Scanner;

verus! {

/// The operator and punctuation tokens.
#[derive(Debug, Clone, Copy, PartialEq, Eq, Structural)]
pub enum Punctuator {
    /// `!`
    Bang,
    /// `!=`
    NotEqual,
    /// `!==`
    StrictNotEqual,
    /// `#`
    Hash,
    /// `%`
    Percent,
    /// `%=`
    PercentAssign,
    /// `&`
    Amp,
    /// `&&`
    AmpAmp,
    /// `&&=`
    AmpAmpAssign,
    /// `&=`
    AmpAssign,
    /// `(`
    LParen,
    /// `)`
    RParen,
    /// `*`
    Star,
    /// `**`
    StarStar,
    /// `**=`
    StarStarAssign,
    /// `*=`
    StarAssign,
    /// `+`
    Plus,
    /// `++`
    PlusPlus,
    /// `+=`
    PlusAssign,
    /// `,`
    Comma,
    /// `-`
    Minus,
    /// `--`
    MinusMinus,
    /// `-=`
    MinusAssign,
    /// `.`
    Dot,
    /// `...`
    Ellipsis,
    /// `/`
    Slash,
    /// `/=`
    SlashAssign,
    /// `:`
    Colon,
    /// `;`
    Semicolon,
    /// `<`
    Lt,
    /// `<<`
    Shl,
    /// `<<=`
    ShlAssign,
    /// `<=`
    LtEq,
    /// `=`
    Assign,
    /// `==`
    Equal,
    /// `===`
    StrictEqual,
    /// `=>`
    Arrow,
    /// `>`
    Gt,
    /// `>=`
    GtEq,
    /// `>>`
    Shr,
    /// `>>=`
    ShrAssign,
    /// `>>>`
    UShr,
    /// `>>>=`
    UShrAssign,
    /// `?`
    Question,
    /// `?.`
    QuestionDot,
    /// `??`
    Nullish,
    /// `??=`
    NullishAssign,
    /// `@`
    At,
    /// `[`
    LBracket,
    /// `]`
    RBracket,
    /// `^`
    Caret,
    /// `^=`
    CaretAssign,
    /// `{`
    LBrace,
    /// `|`
    Pipe,
    /// `||`
    PipePipe,
    /// `||=`
    PipePipeAssign,
    /// `|=`
    PipeAssign,
    /// `}`
    RBrace,
    /// `~`
    Tilde,
}

impl Punctuator {
    /// The spelling of the token.
    pub open spec fn spelling(self) -> Seq<u8> {
        match self {
            Punctuator::Bang => seq!['!' as u8],
            Punctuator::NotEqual => seq!['!' as u8, '=' as u8],
            Punctuator::StrictNotEqual => seq!['!' as u8, '=' as u8, '=' as u8],
            Punctuator::Hash => seq!['#' as u8],
            Punctuator::Percent => seq!['%' as u8],
            Punctuator::PercentAssign => seq!['%' as u8, '=' as u8],
            Punctuator::Amp => seq!['&' as u8],
            Punctuator::AmpAmp => seq!['&' as u8, '&' as u8],
            Punctuator::AmpAmpAssign => seq!['&' as u8, '&' as u8, '=' as u8],
            Punctuator::AmpAssign => seq!['&' as u8, '=' as u8],
            Punctuator::LParen => seq!['(' as u8],
            Punctuator::RParen => seq![')' as u8],
            Punctuator::Star => seq!['*' as u8],
            Punctuator::StarStar => seq!['*' as u8, '*' as u8],
            Punctuator::StarStarAssign => seq!['*' as u8, '*' as u8, '=' as u8],
            Punctuator::StarAssign => seq!['*' as u8, '=' as u8],
            Punctuator::Plus => seq!['+' as u8],
            Punctuator::PlusPlus => seq!['+' as u8, '+' as u8],
            Punctuator::PlusAssign => seq!['+' as u8, '=' as u8],
            Punctuator::Comma => seq![',' as u8],
            Punctuator::Minus => seq!['-' as u8],
            Punctuator::MinusMinus => seq!['-' as u8, '-' as u8],
            Punctuator::MinusAssign => seq!['-' as u8, '=' as u8],
            Punctuator::Dot => seq!['.' as u8],
            Punctuator::Ellipsis => seq!['.' as u8, '.' as u8, '.' as u8],
            Punctuator::Slash => seq!['/' as u8],
            Punctuator::SlashAssign => seq!['/' as u8, '=' as u8],
            Punctuator::Colon => seq![':' as u8],
            Punctuator::Semicolon => seq![';' as u8],
            Punctuator::Lt => seq!['<' as u8],
            Punctuator::Shl => seq!['<' as u8, '<' as u8],
            Punctuator::ShlAssign => seq!['<' as u8, '<' as u8, '=' as u8],
            Punctuator::LtEq => seq!['<' as u8, '=' as u8],
            Punctuator::Assign => seq!['=' as u8],
            Punctuator::Equal => seq!['=' as u8, '=' as u8],
            Punctuator::StrictEqual => seq!['=' as u8, '=' as u8, '=' as u8],
            Punctuator::Arrow => seq!['=' as u8, '>' as u8],
            Punctuator::Gt => seq!['>' as u8],
            Punctuator::GtEq => seq!['>' as u8, '=' as u8],
            Punctuator::Shr => seq!['>' as u8, '>' as u8],
            Punctuator::ShrAssign => seq!['>' as u8, '>' as u8, '=' as u8],
            Punctuator::UShr => seq!['>' as u8, '>' as u8, '>' as u8],
            Punctuator::UShrAssign => seq!['>' as u8, '>' as u8, '>' as u8, '=' as u8],
            Punctuator::Question => seq!['?' as u8],
            Punctuator::QuestionDot => seq!['?' as u8, '.' as u8],
            Punctuator::Nullish => seq!['?' as u8, '?' as u8],
            Punctuator::NullishAssign => seq!['?' as u8, '?' as u8, '=' as u8],
            Punctuator::At => seq!['@' as u8],
            Punctuator::LBracket => seq!['[' as u8],
            Punctuator::RBracket => seq![']' as u8],
            Punctuator::Caret => seq!['^' as u8],
            Punctuator::CaretAssign => seq!['^' as u8, '=' as u8],
            Punctuator::LBrace => seq!['{' as u8],
            Punctuator::Pipe => seq!['|' as u8],
            Punctuator::PipePipe => seq!['|' as u8, '|' as u8],
            Punctuator::PipePipeAssign => seq!['|' as u8, '|' as u8, '=' as u8],
            Punctuator::PipeAssign => seq!['|' as u8, '=' as u8],
            Punctuator::RBrace => seq!['}' as u8],
            Punctuator::Tilde => seq!['~' as u8],
        }
    }
}

/// The punctuator that starts at `q`, by maximal munch: each byte that extends
/// a spelling is taken. The families of `.` and `/` are recognised apart, since
/// numbers and comments start with them too.
pub open spec fn punct_at(b: Seq<u8>, q: int) -> Option<Punctuator> {
    if !(0 <= q < b.len()) {
        None
    } else if b[q] == '!' as u8 {
        Some(
            if byte_is(b, q + 1, '=' as u8) {
                if byte_is(b, q + 2, '=' as u8) {
                    Punctuator::StrictNotEqual
                } else {
                    Punctuator::NotEqual
                }
            } else {
                Punctuator::Bang
            }
        )
    } else if b[q] == '#' as u8 {
        Some(
            Punctuator::Hash
        )
    } else if b[q] == '%' as u8 {
        Some(
            if byte_is(b, q + 1, '=' as u8) {
                Punctuator::PercentAssign
            } else {
                Punctuator::Percent
            }
        )
    } else if b[q] == '&' as u8 {
        Some(
            if byte_is(b, q + 1, '&' as u8) {
                if byte_is(b, q + 2, '=' as u8) {
                    Punctuator::AmpAmpAssign
                } else {
                    Punctuator::AmpAmp
                }
            } else if byte_is(b, q + 1, '=' as u8) {
                Punctuator::AmpAssign
            } else {
                Punctuator::Amp
            }
        )
    } else if b[q] == '(' as u8 {
        Some(
            Punctuator::LParen
        )
    } else if b[q] == ')' as u8 {
        Some(
            Punctuator::RParen
        )
    } else if b[q] == '*' as u8 {
        Some(
            if byte_is(b, q + 1, '*' as u8) {
                if byte_is(b, q + 2, '=' as u8) {
                    Punctuator::StarStarAssign
                } else {
                    Punctuator::StarStar
                }
            } else if byte_is(b, q + 1, '=' as u8) {
                Punctuator::StarAssign
            } else {
                Punctuator::Star
            }
        )
    } else if b[q] == '+' as u8 {
        Some(
            if byte_is(b, q + 1, '+' as u8) {
                Punctuator::PlusPlus
            } else if byte_is(b, q + 1, '=' as u8) {
                Punctuator::PlusAssign
            } else {
                Punctuator::Plus
            }
        )
    } else if b[q] == ',' as u8 {
        Some(
            Punctuator::Comma
        )
    } else if b[q] == '-' as u8 {
        Some(
            if byte_is(b, q + 1, '-' as u8) {
                Punctuator::MinusMinus
            } else if byte_is(b, q + 1, '=' as u8) {
                Punctuator::MinusAssign
            } else {
                Punctuator::Minus
            }
        )
    } else if b[q] == ':' as u8 {
        Some(
            Punctuator::Colon
        )
    } else if b[q] == ';' as u8 {
        Some(
            Punctuator::Semicolon
        )
    } else if b[q] == '<' as u8 {
        Some(
            if byte_is(b, q + 1, '<' as u8) {
                if byte_is(b, q + 2, '=' as u8) {
                    Punctuator::ShlAssign
                } else {
                    Punctuator::Shl
                }
            } else if byte_is(b, q + 1, '=' as u8) {
                Punctuator::LtEq
            } else {
                Punctuator::Lt
            }
        )
    } else if b[q] == '=' as u8 {
        Some(
            if byte_is(b, q + 1, '=' as u8) {
                if byte_is(b, q + 2, '=' as u8) {
                    Punctuator::StrictEqual
                } else {
                    Punctuator::Equal
                }
            } else if byte_is(b, q + 1, '>' as u8) {
                Punctuator::Arrow
            } else {
                Punctuator::Assign
            }
        )
    } else if b[q] == '>' as u8 {
        Some(
            if byte_is(b, q + 1, '=' as u8) {
                Punctuator::GtEq
            } else if byte_is(b, q + 1, '>' as u8) {
                if byte_is(b, q + 2, '=' as u8) {
                    Punctuator::ShrAssign
                } else if byte_is(b, q + 2, '>' as u8) {
                    if byte_is(b, q + 3, '=' as u8) {
                        Punctuator::UShrAssign
                    } else {
                        Punctuator::UShr
                    }
                } else {
                    Punctuator::Shr
                }
            } else {
                Punctuator::Gt
            }
        )
    } else if b[q] == '?' as u8 {
        Some(
            if byte_is(b, q + 1, '.' as u8) {
                Punctuator::QuestionDot
            } else if byte_is(b, q + 1, '?' as u8) {
                if byte_is(b, q + 2, '=' as u8) {
                    Punctuator::NullishAssign
                } else {
                    Punctuator::Nullish
                }
            } else {
                Punctuator::Question
            }
        )
    } else if b[q] == '@' as u8 {
        Some(
            Punctuator::At
        )
    } else if b[q] == '[' as u8 {
        Some(
            Punctuator::LBracket
        )
    } else if b[q] == ']' as u8 {
        Some(
            Punctuator::RBracket
        )
    } else if b[q] == '^' as u8 {
        Some(
            if byte_is(b, q + 1, '=' as u8) {
                Punctuator::CaretAssign
            } else {
                Punctuator::Caret
            }
        )
    } else if b[q] == '{' as u8 {
        Some(
            Punctuator::LBrace
        )
    } else if b[q] == '|' as u8 {
        Some(
            if byte_is(b, q + 1, '|' as u8) {
                if byte_is(b, q + 2, '=' as u8) {
                    Punctuator::PipePipeAssign
                } else {
                    Punctuator::PipePipe
                }
            } else if byte_is(b, q + 1, '=' as u8) {
                Punctuator::PipeAssign
            } else {
                Punctuator::Pipe
            }
        )
    } else if b[q] == '}' as u8 {
        Some(
            Punctuator::RBrace
        )
    } else if b[q] == '~' as u8 {
        Some(
            Punctuator::Tilde
        )
    } else {
        None
    }
}

impl<'s> Scanner<'s> {
    /// Scans the punctuator at the cursor, taking the longest spelling; other
    /// than `.` and `/`, whose families are scanned apart.
    pub fn scan_punctuator(&mut self) -> (r: Option<Punctuator>)
        requires
            old(self).wf(),
        ensures
            final(self).advanced_from(old(self)),
            r == punct_at(old(self).text(), old(self).pos()),
            match r {
                Some(p) => final(self).pos() == old(self).pos() + p.spelling().len(),
                None => final(self).pos() == old(self).pos(),
            },
    {
        if self.is_empty() {
            return None;
        }
        let c = self.cur();
        if c == '!' as u8 {
            self.bump();
            Some(
                if self.eat('=' as u8) {
                    if self.eat('=' as u8) {
                        Punctuator::StrictNotEqual
                    } else {
                        Punctuator::NotEqual
                    }
                } else {
                    Punctuator::Bang
                }
            )
        } else if c == '#' as u8 {
            self.bump();
            Some(
                Punctuator::Hash
            )
        } else if c == '%' as u8 {
            self.bump();
            Some(
                if self.eat('=' as u8) {
                    Punctuator::PercentAssign
                } else {
                    Punctuator::Percent
                }
            )
        } else if c == '&' as u8 {
            self.bump();
            Some(
                if self.eat('&' as u8) {
                    if self.eat('=' as u8) {
                        Punctuator::AmpAmpAssign
                    } else {
                        Punctuator::AmpAmp
                    }
                } else if self.eat('=' as u8) {
                    Punctuator::AmpAssign
                } else {
                    Punctuator::Amp
                }
            )
        } else if c == '(' as u8 {
            self.bump();
            Some(
                Punctuator::LParen
            )
        } else if c == ')' as u8 {
            self.bump();
            Some(
                Punctuator::RParen
            )
        } else if c == '*' as u8 {
            self.bump();
            Some(
                if self.eat('*' as u8) {
                    if self.eat('=' as u8) {
                        Punctuator::StarStarAssign
                    } else {
                        Punctuator::StarStar
                    }
                } else if self.eat('=' as u8) {
                    Punctuator::StarAssign
                } else {
                    Punctuator::Star
                }
            )
        } else if c == '+' as u8 {
            self.bump();
            Some(
                if self.eat('+' as u8) {
                    Punctuator::PlusPlus
                } else if self.eat('=' as u8) {
                    Punctuator::PlusAssign
                } else {
                    Punctuator::Plus
                }
            )
        } else if c == ',' as u8 {
            self.bump();
            Some(
                Punctuator::Comma
            )
        } else if c == '-' as u8 {
            self.bump();
            Some(
                if self.eat('-' as u8) {
                    Punctuator::MinusMinus
                } else if self.eat('=' as u8) {
                    Punctuator::MinusAssign
                } else {
                    Punctuator::Minus
                }
            )
        } else if c == ':' as u8 {
            self.bump();
            Some(
                Punctuator::Colon
            )
        } else if c == ';' as u8 {
            self.bump();
            Some(
                Punctuator::Semicolon
            )
        } else if c == '<' as u8 {
            self.bump();
            Some(
                if self.eat('<' as u8) {
                    if self.eat('=' as u8) {
                        Punctuator::ShlAssign
                    } else {
                        Punctuator::Shl
                    }
                } else if self.eat('=' as u8) {
                    Punctuator::LtEq
                } else {
                    Punctuator::Lt
                }
            )
        } else if c == '=' as u8 {
            self.bump();
            Some(
                if self.eat('=' as u8) {
                    if self.eat('=' as u8) {
                        Punctuator::StrictEqual
                    } else {
                        Punctuator::Equal
                    }
                } else if self.eat('>' as u8) {
                    Punctuator::Arrow
                } else {
                    Punctuator::Assign
                }
            )
        } else if c == '>' as u8 {
            self.bump();
            Some(
                if self.eat('=' as u8) {
                    Punctuator::GtEq
                } else if self.eat('>' as u8) {
                    if self.eat('=' as u8) {
                        Punctuator::ShrAssign
                    } else if self.eat('>' as u8) {
                        if self.eat('=' as u8) {
                            Punctuator::UShrAssign
                        } else {
                            Punctuator::UShr
                        }
                    } else {
                        Punctuator::Shr
                    }
                } else {
                    Punctuator::Gt
                }
            )
        } else if c == '?' as u8 {
            self.bump();
            Some(
                if self.eat('.' as u8) {
                    Punctuator::QuestionDot
                } else if self.eat('?' as u8) {
                    if self.eat('=' as u8) {
                        Punctuator::NullishAssign
                    } else {
                        Punctuator::Nullish
                    }
                } else {
                    Punctuator::Question
                }
            )
        } else if c == '@' as u8 {
            self.bump();
            Some(
                Punctuator::At
            )
        } else if c == '[' as u8 {
            self.bump();
            Some(
                Punctuator::LBracket
            )
        } else if c == ']' as u8 {
            self.bump();
            Some(
                Punctuator::RBracket
            )
        } else if c == '^' as u8 {
            self.bump();
            Some(
                if self.eat('=' as u8) {
                    Punctuator::CaretAssign
                } else {
                    Punctuator::Caret
                }
            )
        } else if c == '{' as u8 {
            self.bump();
            Some(
                Punctuator::LBrace
            )
        } else if c == '|' as u8 {
            self.bump();
            Some(
                if self.eat('|' as u8) {
                    if self.eat('=' as u8) {
                        Punctuator::PipePipeAssign
                    } else {
                        Punctuator::PipePipe
                    }
                } else if self.eat('=' as u8) {
                    Punctuator::PipeAssign
                } else {
                    Punctuator::Pipe
                }
            )
        } else if c == '}' as u8 {
            self.bump();
            Some(
                Punctuator::RBrace
            )
        } else if c == '~' as u8 {
            self.bump();
            Some(
                Punctuator::Tilde
            )
        } else {
            None
        }
    }
}

} // verus!
