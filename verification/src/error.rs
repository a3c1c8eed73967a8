//! The errors that identifier validation can report.

use vstd::prelude::*;

verus! {

/// An error encountered while validating a room identifier string.
///
/// Every failure is reported at construction time; no value of the
/// identifier types exists unless its string passed validation.
#[derive(Clone, Copy, Debug, PartialEq, Eq, Structural)]
pub enum Error {
    /// The first character is neither `!` (room ID) nor `#` (room alias ID),
    /// or the string is empty.
    MissingLeadingSigil,
    /// No `:` separates the localpart from the server name.
    MissingDelimiter,
    /// The segment after the first `:` is not a valid server name.
    InvalidServerName,
}

} // verus!
