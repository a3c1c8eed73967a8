//! The validation rule shared by all room identifiers, as a mathematical
//! model over character sequences, plus the executable checks it is proved
//! against.
//!
//! A room identifier is a sigil character, a localpart, a `:` delimiter and a
//! server name: the model fixes the sigil and the delimiter here, and takes
//! the server-name rule from the collaborating validator behind
//! [`is_server_name`].

use vstd::prelude::*;

use crate::error::Error;

verus! {

/// Whether `c` is one of the two identifier sigils: `!` marks a room ID,
/// `#` marks a room alias ID.
pub open spec fn is_sigil(c: char) -> bool {
    c == '!' || c == '#'
}

/// Whether `i` is the position of the first `:` in `s`.
pub open spec fn is_first_colon(s: Seq<char>, i: int) -> bool {
    &&& 0 <= i < s.len()
    &&& s[i] == ':'
    &&& forall|j: int| 0 <= j < i ==> s[j] != ':'
}

/// Whether `s` holds a `:` at all.
pub open spec fn has_colon(s: Seq<char>) -> bool {
    exists|i: int| is_first_colon(s, i)
}

/// The position of the first `:` in `s`; meaningful only when `has_colon(s)`.
pub open spec fn first_colon(s: Seq<char>) -> int
    recommends
        has_colon(s),
{
    choose|i: int| is_first_colon(s, i)
}

/// At most one position can be the first colon.
pub proof fn lemma_first_colon_unique(s: Seq<char>, i: int)
    requires
        is_first_colon(s, i),
    ensures
        first_colon(s) == i,
{
    assert(has_colon(s));
    let k = first_colon(s);
    assert(is_first_colon(s, k));
}

/// The characters strictly between the sigil and the first `:`.
pub open spec fn localpart_of(s: Seq<char>) -> Seq<char>
    recommends
        has_colon(s),
{
    s.subrange(1, first_colon(s))
}

/// The characters strictly after the first `:`.
pub open spec fn server_part(s: Seq<char>) -> Seq<char>
    recommends
        has_colon(s),
{
    s.subrange(first_colon(s) + 1, s.len() as int)
}

/// What the collaborating server-name validator accepts. The rule (an IP
/// literal or a DNS name, optionally followed by a port) is the outside
/// validator's own; the library states nothing about it beyond the name.
pub uninterp spec fn is_server_name(s: Seq<char>) -> bool;

/// Relies on `ruma_identifiers_validation::server_name::validate`: whether a
/// string is a valid server name. The result depends on the characters alone.
#[verifier::external_body]
pub(crate) fn server_name_ok(s: &str) -> (r: bool)
    ensures
        r == is_server_name(s@),
{
    ruma_identifiers_validation::server_name::validate(s).is_ok()
}

/// Whether `s` is a valid identifier with the fixed sigil `sigil`: the sigil
/// first, then a localpart, a `:` delimiter, and a valid server name.
pub open spec fn valid_sigil_id(s: Seq<char>, sigil: char) -> bool {
    &&& s.len() > 0
    &&& s[0] == sigil
    &&& has_colon(s)
    &&& is_server_name(server_part(s))
}

/// Whether `s` is a valid room ID (sigil `!`).
pub open spec fn valid_room_id(s: Seq<char>) -> bool {
    valid_sigil_id(s, '!')
}

/// Whether `s` is a valid room alias ID (sigil `#`).
pub open spec fn valid_room_alias_id(s: Seq<char>) -> bool {
    valid_sigil_id(s, '#')
}

/// Whether `s` is a valid room reference: a valid room ID or a valid room
/// alias ID, i.e. either sigil followed by the shared rule.
pub open spec fn valid_room_reference(s: Seq<char>) -> bool {
    &&& s.len() > 0
    &&& is_sigil(s[0])
    &&& has_colon(s)
    &&& is_server_name(server_part(s))
}

/// The error owed for an invalid identifier with fixed sigil `sigil`: the
/// checks run in order, and the first failing one names the error.
pub open spec fn sigil_id_error(s: Seq<char>, sigil: char) -> Error {
    if !(s.len() > 0 && s[0] == sigil) {
        Error::MissingLeadingSigil
    } else if !has_colon(s) {
        Error::MissingDelimiter
    } else {
        Error::InvalidServerName
    }
}

/// The error owed for an invalid room reference, by the same order of checks
/// but with either sigil accepted.
pub open spec fn reference_error(s: Seq<char>) -> Error {
    if !(s.len() > 0 && is_sigil(s[0])) {
        Error::MissingLeadingSigil
    } else if !has_colon(s) {
        Error::MissingDelimiter
    } else {
        Error::InvalidServerName
    }
}

/// The outcome `RoomIdOrAliasId::parse` owes for an input with characters
/// `s`: the characters unchanged when they form a valid room reference, and
/// the first failing check's error otherwise.
pub open spec fn reference_parse_view(s: Seq<char>) -> Result<Seq<char>, Error> {
    if valid_room_reference(s) {
        Result::Ok(s)
    } else {
        Result::Err(reference_error(s))
    }
}

/// Returns the position of the first `:` in `s`, or `None` when `s` holds no
/// colon.
pub(crate) fn find_colon(s: &str) -> (r: Option<usize>)
    ensures
        match r {
            Some(i) => is_first_colon(s@, i as int),
            None => !has_colon(s@),
        },
{
    let n = s.unicode_len();
    let mut i: usize = 0;
    while i < n
        invariant
            i <= n,
            n == s@.len(),
            forall|j: int| 0 <= j < i ==> s@[j] != ':',
        decreases n - i,
    {
        if s.get_char(i) == ':' {
            return Some(i);
        }
        i += 1;
    }
    None
}

} // verus!
