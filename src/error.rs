//! The failures that loading and lexing report, and the result type that carries them.
use vstd::prelude::*;
use vstd::string::StringExecFns;

verus! {

#[verifier::external_type_specification]
#[verifier::external_body]
pub struct ExIoError(std::io::Error);

#[verifier::external_type_specification]
#[verifier::external_body]
pub struct ExParseIntError(std::num::ParseIntError);

#[verifier::external_type_specification]
#[verifier::external_body]
pub struct ExParseFloatError(std::num::ParseFloatError);

#[verifier::external_type_specification]
#[verifier::external_body]
pub struct ExCharTryFromError(std::char::CharTryFromError);

/// Every failure of the library: file-system, number conversion, character
/// conversion, and the hand-written lexical diagnostics.
#[derive(Debug)]
pub enum Error {
    IO(std::io::Error),
    ParseInt(std::num::ParseIntError),
    ParseFloat(std::num::ParseFloatError),
    CharTryFrom(std::char::CharTryFromError),
    Info(String),
}

pub type Result<T> = std::result::Result<T, Error>;

impl Error {
    /// This is a diagnostic whose message is `m`.
    pub open spec fn is_info(&self, m: Seq<char>) -> bool {
        match self {
            Error::Info(s) => s@ == m,
            _ => false,
        }
    }

}

/// A diagnostic with a fixed message.
pub fn info(m: &str) -> (e: Error)
    ensures
        e.is_info(m@),
{
    Error::Info(String::from_str(m))
}

/// A diagnostic naming the text it found: `prefix`, then `found`, then a closing quote.
pub fn info_quoted(prefix: &str, found: &str) -> (e: Error)
    ensures
        e.is_info(prefix@ + found@ + "'"@),
{
    let mut s = String::from_str(prefix);
    s.append(found);
    s.append("'");
    Error::Info(s)
}

} // verus!
