//! The reserved words.
use vstd::prelude::*;

verus! {

/// The reserved words of the language; all are lowercase.
#[derive(Debug, Clone, Copy, PartialEq, Eq, Structural)]
pub enum Keyword {
    Await,
    Break,
    Case,
    Catch,
    Class,
    Const,
    Continue,
    Debugger,
    Default,
    Delete,
    Do,
    Else,
    Enum,
    Export,
    Extends,
    False,
    Finally,
    For,
    Function,
    If,
    Import,
    In,
    InstanceOf,
    Let,
    New,
    Null,
    Return,
    Super,
    Switch,
    This,
    Throw,
    True,
    Try,
    Typeof,
    Var,
    Void,
    While,
    With,
    Yield,
}

impl Keyword {
    /// The spelling of the word.
    pub open spec fn spelling(self) -> Seq<u8> {
        match self {
            Keyword::Await => seq!['a' as u8, 'w' as u8, 'a' as u8, 'i' as u8, 't' as u8],
            Keyword::Break => seq!['b' as u8, 'r' as u8, 'e' as u8, 'a' as u8, 'k' as u8],
            Keyword::Case => seq!['c' as u8, 'a' as u8, 's' as u8, 'e' as u8],
            Keyword::Catch => seq!['c' as u8, 'a' as u8, 't' as u8, 'c' as u8, 'h' as u8],
            Keyword::Class => seq!['c' as u8, 'l' as u8, 'a' as u8, 's' as u8, 's' as u8],
            Keyword::Const => seq!['c' as u8, 'o' as u8, 'n' as u8, 's' as u8, 't' as u8],
            Keyword::Continue => seq!['c' as u8, 'o' as u8, 'n' as u8, 't' as u8, 'i' as u8, 'n' as u8, 'u' as u8, 'e' as u8],
            Keyword::Debugger => seq!['d' as u8, 'e' as u8, 'b' as u8, 'u' as u8, 'g' as u8, 'g' as u8, 'e' as u8, 'r' as u8],
            Keyword::Default => seq!['d' as u8, 'e' as u8, 'f' as u8, 'a' as u8, 'u' as u8, 'l' as u8, 't' as u8],
            Keyword::Delete => seq!['d' as u8, 'e' as u8, 'l' as u8, 'e' as u8, 't' as u8, 'e' as u8],
            Keyword::Do => seq!['d' as u8, 'o' as u8],
            Keyword::Else => seq!['e' as u8, 'l' as u8, 's' as u8, 'e' as u8],
            Keyword::Enum => seq!['e' as u8, 'n' as u8, 'u' as u8, 'm' as u8],
            Keyword::Export => seq!['e' as u8, 'x' as u8, 'p' as u8, 'o' as u8, 'r' as u8, 't' as u8],
            Keyword::Extends => seq!['e' as u8, 'x' as u8, 't' as u8, 'e' as u8, 'n' as u8, 'd' as u8, 's' as u8],
            Keyword::False => seq!['f' as u8, 'a' as u8, 'l' as u8, 's' as u8, 'e' as u8],
            Keyword::Finally => seq!['f' as u8, 'i' as u8, 'n' as u8, 'a' as u8, 'l' as u8, 'l' as u8, 'y' as u8],
            Keyword::For => seq!['f' as u8, 'o' as u8, 'r' as u8],
            Keyword::Function => seq!['f' as u8, 'u' as u8, 'n' as u8, 'c' as u8, 't' as u8, 'i' as u8, 'o' as u8, 'n' as u8],
            Keyword::If => seq!['i' as u8, 'f' as u8],
            Keyword::Import => seq!['i' as u8, 'm' as u8, 'p' as u8, 'o' as u8, 'r' as u8, 't' as u8],
            Keyword::In => seq!['i' as u8, 'n' as u8],
            Keyword::InstanceOf => seq!['i' as u8, 'n' as u8, 's' as u8, 't' as u8, 'a' as u8, 'n' as u8, 'c' as u8, 'e' as u8, 'o' as u8, 'f' as u8],
            Keyword::Let => seq!['l' as u8, 'e' as u8, 't' as u8],
            Keyword::New => seq!['n' as u8, 'e' as u8, 'w' as u8],
            Keyword::Null => seq!['n' as u8, 'u' as u8, 'l' as u8, 'l' as u8],
            Keyword::Return => seq!['r' as u8, 'e' as u8, 't' as u8, 'u' as u8, 'r' as u8, 'n' as u8],
            Keyword::Super => seq!['s' as u8, 'u' as u8, 'p' as u8, 'e' as u8, 'r' as u8],
            Keyword::Switch => seq!['s' as u8, 'w' as u8, 'i' as u8, 't' as u8, 'c' as u8, 'h' as u8],
            Keyword::This => seq!['t' as u8, 'h' as u8, 'i' as u8, 's' as u8],
            Keyword::Throw => seq!['t' as u8, 'h' as u8, 'r' as u8, 'o' as u8, 'w' as u8],
            Keyword::True => seq!['t' as u8, 'r' as u8, 'u' as u8, 'e' as u8],
            Keyword::Try => seq!['t' as u8, 'r' as u8, 'y' as u8],
            Keyword::Typeof => seq!['t' as u8, 'y' as u8, 'p' as u8, 'e' as u8, 'o' as u8, 'f' as u8],
            Keyword::Var => seq!['v' as u8, 'a' as u8, 'r' as u8],
            Keyword::Void => seq!['v' as u8, 'o' as u8, 'i' as u8, 'd' as u8],
            Keyword::While => seq!['w' as u8, 'h' as u8, 'i' as u8, 'l' as u8, 'e' as u8],
            Keyword::With => seq!['w' as u8, 'i' as u8, 't' as u8, 'h' as u8],
            Keyword::Yield => seq!['y' as u8, 'i' as u8, 'e' as u8, 'l' as u8, 'd' as u8],
        }
    }

    /// The spelling of the word, as bytes.
    pub fn as_bytes(self) -> (r: &'static [u8])
        ensures
            r@ == self.spelling(),
    {
        let r: &'static [u8] = match self {
            Keyword::Await => &['a' as u8, 'w' as u8, 'a' as u8, 'i' as u8, 't' as u8],
            Keyword::Break => &['b' as u8, 'r' as u8, 'e' as u8, 'a' as u8, 'k' as u8],
            Keyword::Case => &['c' as u8, 'a' as u8, 's' as u8, 'e' as u8],
            Keyword::Catch => &['c' as u8, 'a' as u8, 't' as u8, 'c' as u8, 'h' as u8],
            Keyword::Class => &['c' as u8, 'l' as u8, 'a' as u8, 's' as u8, 's' as u8],
            Keyword::Const => &['c' as u8, 'o' as u8, 'n' as u8, 's' as u8, 't' as u8],
            Keyword::Continue => &['c' as u8, 'o' as u8, 'n' as u8, 't' as u8, 'i' as u8, 'n' as u8, 'u' as u8, 'e' as u8],
            Keyword::Debugger => &['d' as u8, 'e' as u8, 'b' as u8, 'u' as u8, 'g' as u8, 'g' as u8, 'e' as u8, 'r' as u8],
            Keyword::Default => &['d' as u8, 'e' as u8, 'f' as u8, 'a' as u8, 'u' as u8, 'l' as u8, 't' as u8],
            Keyword::Delete => &['d' as u8, 'e' as u8, 'l' as u8, 'e' as u8, 't' as u8, 'e' as u8],
            Keyword::Do => &['d' as u8, 'o' as u8],
            Keyword::Else => &['e' as u8, 'l' as u8, 's' as u8, 'e' as u8],
            Keyword::Enum => &['e' as u8, 'n' as u8, 'u' as u8, 'm' as u8],
            Keyword::Export => &['e' as u8, 'x' as u8, 'p' as u8, 'o' as u8, 'r' as u8, 't' as u8],
            Keyword::Extends => &['e' as u8, 'x' as u8, 't' as u8, 'e' as u8, 'n' as u8, 'd' as u8, 's' as u8],
            Keyword::False => &['f' as u8, 'a' as u8, 'l' as u8, 's' as u8, 'e' as u8],
            Keyword::Finally => &['f' as u8, 'i' as u8, 'n' as u8, 'a' as u8, 'l' as u8, 'l' as u8, 'y' as u8],
            Keyword::For => &['f' as u8, 'o' as u8, 'r' as u8],
            Keyword::Function => &['f' as u8, 'u' as u8, 'n' as u8, 'c' as u8, 't' as u8, 'i' as u8, 'o' as u8, 'n' as u8],
            Keyword::If => &['i' as u8, 'f' as u8],
            Keyword::Import => &['i' as u8, 'm' as u8, 'p' as u8, 'o' as u8, 'r' as u8, 't' as u8],
            Keyword::In => &['i' as u8, 'n' as u8],
            Keyword::InstanceOf => &['i' as u8, 'n' as u8, 's' as u8, 't' as u8, 'a' as u8, 'n' as u8, 'c' as u8, 'e' as u8, 'o' as u8, 'f' as u8],
            Keyword::Let => &['l' as u8, 'e' as u8, 't' as u8],
            Keyword::New => &['n' as u8, 'e' as u8, 'w' as u8],
            Keyword::Null => &['n' as u8, 'u' as u8, 'l' as u8, 'l' as u8],
            Keyword::Return => &['r' as u8, 'e' as u8, 't' as u8, 'u' as u8, 'r' as u8, 'n' as u8],
            Keyword::Super => &['s' as u8, 'u' as u8, 'p' as u8, 'e' as u8, 'r' as u8],
            Keyword::Switch => &['s' as u8, 'w' as u8, 'i' as u8, 't' as u8, 'c' as u8, 'h' as u8],
            Keyword::This => &['t' as u8, 'h' as u8, 'i' as u8, 's' as u8],
            Keyword::Throw => &['t' as u8, 'h' as u8, 'r' as u8, 'o' as u8, 'w' as u8],
            Keyword::True => &['t' as u8, 'r' as u8, 'u' as u8, 'e' as u8],
            Keyword::Try => &['t' as u8, 'r' as u8, 'y' as u8],
            Keyword::Typeof => &['t' as u8, 'y' as u8, 'p' as u8, 'e' as u8, 'o' as u8, 'f' as u8],
            Keyword::Var => &['v' as u8, 'a' as u8, 'r' as u8],
            Keyword::Void => &['v' as u8, 'o' as u8, 'i' as u8, 'd' as u8],
            Keyword::While => &['w' as u8, 'h' as u8, 'i' as u8, 'l' as u8, 'e' as u8],
            Keyword::With => &['w' as u8, 'i' as u8, 't' as u8, 'h' as u8],
            Keyword::Yield => &['y' as u8, 'i' as u8, 'e' as u8, 'l' as u8, 'd' as u8],
        };
        assert(r@ =~= self.spelling());
        r
    }
}

/// The reserved word that a word spells, if any. The word is compared with the
/// reserved words that begin with its first letter.
pub open spec fn keyword_of(w: Seq<u8>) -> Option<Keyword> {
    if w.len() == 0 {
        None
    } else if w[0] == 'a' as u8 {
        if w == Keyword::Await.spelling() {
            Some(Keyword::Await)
        } else {
            None
        }
    } else if w[0] == 'b' as u8 {
        if w == Keyword::Break.spelling() {
            Some(Keyword::Break)
        } else {
            None
        }
    } else if w[0] == 'c' as u8 {
        if w == Keyword::Case.spelling() {
            Some(Keyword::Case)
        } else if w == Keyword::Catch.spelling() {
            Some(Keyword::Catch)
        } else if w == Keyword::Class.spelling() {
            Some(Keyword::Class)
        } else if w == Keyword::Const.spelling() {
            Some(Keyword::Const)
        } else if w == Keyword::Continue.spelling() {
            Some(Keyword::Continue)
        } else {
            None
        }
    } else if w[0] == 'd' as u8 {
        if w == Keyword::Debugger.spelling() {
            Some(Keyword::Debugger)
        } else if w == Keyword::Default.spelling() {
            Some(Keyword::Default)
        } else if w == Keyword::Delete.spelling() {
            Some(Keyword::Delete)
        } else if w == Keyword::Do.spelling() {
            Some(Keyword::Do)
        } else {
            None
        }
    } else if w[0] == 'e' as u8 {
        if w == Keyword::Else.spelling() {
            Some(Keyword::Else)
        } else if w == Keyword::Enum.spelling() {
            Some(Keyword::Enum)
        } else if w == Keyword::Export.spelling() {
            Some(Keyword::Export)
        } else if w == Keyword::Extends.spelling() {
            Some(Keyword::Extends)
        } else {
            None
        }
    } else if w[0] == 'f' as u8 {
        if w == Keyword::False.spelling() {
            Some(Keyword::False)
        } else if w == Keyword::Finally.spelling() {
            Some(Keyword::Finally)
        } else if w == Keyword::For.spelling() {
            Some(Keyword::For)
        } else if w == Keyword::Function.spelling() {
            Some(Keyword::Function)
        } else {
            None
        }
    } else if w[0] == 'i' as u8 {
        if w == Keyword::If.spelling() {
            Some(Keyword::If)
        } else if w == Keyword::Import.spelling() {
            Some(Keyword::Import)
        } else if w == Keyword::In.spelling() {
            Some(Keyword::In)
        } else if w == Keyword::InstanceOf.spelling() {
            Some(Keyword::InstanceOf)
        } else {
            None
        }
    } else if w[0] == 'l' as u8 {
        if w == Keyword::Let.spelling() {
            Some(Keyword::Let)
        } else {
            None
        }
    } else if w[0] == 'n' as u8 {
        if w == Keyword::New.spelling() {
            Some(Keyword::New)
        } else if w == Keyword::Null.spelling() {
            Some(Keyword::Null)
        } else {
            None
        }
    } else if w[0] == 'r' as u8 {
        if w == Keyword::Return.spelling() {
            Some(Keyword::Return)
        } else {
            None
        }
    } else if w[0] == 's' as u8 {
        if w == Keyword::Super.spelling() {
            Some(Keyword::Super)
        } else if w == Keyword::Switch.spelling() {
            Some(Keyword::Switch)
        } else {
            None
        }
    } else if w[0] == 't' as u8 {
        if w == Keyword::This.spelling() {
            Some(Keyword::This)
        } else if w == Keyword::Throw.spelling() {
            Some(Keyword::Throw)
        } else if w == Keyword::True.spelling() {
            Some(Keyword::True)
        } else if w == Keyword::Try.spelling() {
            Some(Keyword::Try)
        } else if w == Keyword::Typeof.spelling() {
            Some(Keyword::Typeof)
        } else {
            None
        }
    } else if w[0] == 'v' as u8 {
        if w == Keyword::Var.spelling() {
            Some(Keyword::Var)
        } else if w == Keyword::Void.spelling() {
            Some(Keyword::Void)
        } else {
            None
        }
    } else if w[0] == 'w' as u8 {
        if w == Keyword::While.spelling() {
            Some(Keyword::While)
        } else if w == Keyword::With.spelling() {
            Some(Keyword::With)
        } else {
            None
        }
    } else if w[0] == 'y' as u8 {
        if w == Keyword::Yield.spelling() {
            Some(Keyword::Yield)
        } else {
            None
        }
    } else {
        None
    }
}

/// `word` and `k` are spelled alike.
fn spells(word: &[u8], k: Keyword) -> (r: bool)
    ensures
        r == (word@ == k.spelling()),
{
    let s = k.as_bytes();
    if word.len() != s.len() {
        return false;
    }
    let mut i: usize = 0;
    while i < word.len()
        invariant
            word@.len() == s@.len(),
            s@ == k.spelling(),
            0 <= i <= word@.len(),
            forall|j: int| 0 <= j < i ==> word@[j] == s@[j],
        decreases word@.len() - i,
    {
        if word[i] != s[i] {
            return false;
        }
        i = i + 1;
    }
    assert(word@ =~= s@);
    true
}

/// Classifies a word: the reserved word that it spells, or none.
pub fn lookup_keyword(word: &[u8]) -> (r: Option<Keyword>)
    ensures
        r == keyword_of(word@),
{
    if word.len() == 0 {
        return None;
    }
    let c = word[0];
    if c == 'a' as u8 {
        if spells(word, Keyword::Await) {
            return Some(Keyword::Await);
        }
    } else if c == 'b' as u8 {
        if spells(word, Keyword::Break) {
            return Some(Keyword::Break);
        }
    } else if c == 'c' as u8 {
        if spells(word, Keyword::Case) {
            return Some(Keyword::Case);
        }
        if spells(word, Keyword::Catch) {
            return Some(Keyword::Catch);
        }
        if spells(word, Keyword::Class) {
            return Some(Keyword::Class);
        }
        if spells(word, Keyword::Const) {
            return Some(Keyword::Const);
        }
        if spells(word, Keyword::Continue) {
            return Some(Keyword::Continue);
        }
    } else if c == 'd' as u8 {
        if spells(word, Keyword::Debugger) {
            return Some(Keyword::Debugger);
        }
        if spells(word, Keyword::Default) {
            return Some(Keyword::Default);
        }
        if spells(word, Keyword::Delete) {
            return Some(Keyword::Delete);
        }
        if spells(word, Keyword::Do) {
            return Some(Keyword::Do);
        }
    } else if c == 'e' as u8 {
        if spells(word, Keyword::Else) {
            return Some(Keyword::Else);
        }
        if spells(word, Keyword::Enum) {
            return Some(Keyword::Enum);
        }
        if spells(word, Keyword::Export) {
            return Some(Keyword::Export);
        }
        if spells(word, Keyword::Extends) {
            return Some(Keyword::Extends);
        }
    } else if c == 'f' as u8 {
        if spells(word, Keyword::False) {
            return Some(Keyword::False);
        }
        if spells(word, Keyword::Finally) {
            return Some(Keyword::Finally);
        }
        if spells(word, Keyword::For) {
            return Some(Keyword::For);
        }
        if spells(word, Keyword::Function) {
            return Some(Keyword::Function);
        }
    } else if c == 'i' as u8 {
        if spells(word, Keyword::If) {
            return Some(Keyword::If);
        }
        if spells(word, Keyword::Import) {
            return Some(Keyword::Import);
        }
        if spells(word, Keyword::In) {
            return Some(Keyword::In);
        }
        if spells(word, Keyword::InstanceOf) {
            return Some(Keyword::InstanceOf);
        }
    } else if c == 'l' as u8 {
        if spells(word, Keyword::Let) {
            return Some(Keyword::Let);
        }
    } else if c == 'n' as u8 {
        if spells(word, Keyword::New) {
            return Some(Keyword::New);
        }
        if spells(word, Keyword::Null) {
            return Some(Keyword::Null);
        }
    } else if c == 'r' as u8 {
        if spells(word, Keyword::Return) {
            return Some(Keyword::Return);
        }
    } else if c == 's' as u8 {
        if spells(word, Keyword::Super) {
            return Some(Keyword::Super);
        }
        if spells(word, Keyword::Switch) {
            return Some(Keyword::Switch);
        }
    } else if c == 't' as u8 {
        if spells(word, Keyword::This) {
            return Some(Keyword::This);
        }
        if spells(word, Keyword::Throw) {
            return Some(Keyword::Throw);
        }
        if spells(word, Keyword::True) {
            return Some(Keyword::True);
        }
        if spells(word, Keyword::Try) {
            return Some(Keyword::Try);
        }
        if spells(word, Keyword::Typeof) {
            return Some(Keyword::Typeof);
        }
    } else if c == 'v' as u8 {
        if spells(word, Keyword::Var) {
            return Some(Keyword::Var);
        }
        if spells(word, Keyword::Void) {
            return Some(Keyword::Void);
        }
    } else if c == 'w' as u8 {
        if spells(word, Keyword::While) {
            return Some(Keyword::While);
        }
        if spells(word, Keyword::With) {
            return Some(Keyword::With);
        }
    } else if c == 'y' as u8 {
        if spells(word, Keyword::Yield) {
            return Some(Keyword::Yield);
        }
    }
    None
}

/// Every reserved word is recognised from its own spelling.
pub proof fn lemma_keyword_spelling(k: Keyword)
    ensures
        keyword_of(k.spelling()) == Some(k),
{
}

} // verus!
