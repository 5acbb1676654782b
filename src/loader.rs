//! Source files held in memory, and their text.
use vstd::prelude::*;
use vstd::string::StringSliceAdditionalSpecFns;
use vstd::utf8::valid_utf8;

use crate::error::{info, Result};

verus! {

#[verifier::external_type_specification]
#[verifier::external_body]
pub struct ExPathBuf(std::path::PathBuf);

#[verifier::external_type_specification]
#[verifier::external_body]
pub struct ExUtf8Error(std::str::Utf8Error);

/// Relies on `std::str::from_utf8`, which accepts exactly the well-formed
/// UTF-8 byte sequences and returns their text without copying.
#[verifier::external_body]
fn from_utf8(bytes: &[u8]) -> (r: std::result::Result<&str, std::str::Utf8Error>)
    ensures
        match r {
            Ok(s) => valid_utf8(bytes@) && s.spec_bytes() == bytes@,
            Err(_) => !valid_utf8(bytes@),
        },
{
    std::str::from_utf8(bytes)
}

/// A file's path and the bytes read from it.
pub struct FileLoader {
    pub path_buf: std::path::PathBuf,
    pub bytes: Vec<u8>,
}

pub open spec fn encoding_message() -> Seq<char> {
    "Source is not valid UTF-8"@
}

impl FileLoader {
    /// The loaded bytes as text: exactly those bytes when they are well-formed
    /// UTF-8, and an encoding diagnostic otherwise.
    pub fn source_code(&self) -> (r: Result<&str>)
        ensures
            match r {
                Ok(s) => valid_utf8(self.bytes@) && s.spec_bytes() == self.bytes@,
                Err(e) => !valid_utf8(self.bytes@) && e.is_info(encoding_message()),
            },
    {
        match from_utf8(self.bytes.as_slice()) {
            Ok(s) => Ok(s),
            Err(_) => Err(info("Source is not valid UTF-8")),
        }
    }
}

} // verus!
