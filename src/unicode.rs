//! Unicode identifier classification (UAX #31 ID_Start and ID_Continue).
use unicode_id::UnicodeID;
use vstd::prelude::*;

verus! {

/// Whether a character has the Unicode ID_Start property.
pub uninterp spec fn id_start(c: char) -> bool;

/// Whether a character has the Unicode ID_Continue property.
pub uninterp spec fn id_continue(c: char) -> bool;

/// Relies on `unicode_id::UnicodeID::is_id_start`, which looks `c` up in the
/// crate's ID_Start table.
#[verifier::external_body]
pub(crate) fn is_ident_start(c: char) -> (r: bool)
    ensures
        r == id_start(c),
{
    UnicodeID::is_id_start(c)
}

/// Relies on `unicode_id::UnicodeID::is_id_continue`, which looks `c` up in the
/// crate's ID_Continue table.
#[verifier::external_body]
pub(crate) fn is_ident_continue(c: char) -> (r: bool)
    ensures
        r == id_continue(c),
{
    UnicodeID::is_id_continue(c)
}

} // verus!
