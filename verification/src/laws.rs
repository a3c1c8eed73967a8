//! The laws the identifier types obey, stated over the validation model that
//! the executable functions' contracts use.

use vstd::prelude::*;

use crate::error::Error;
use crate::ids::{reference_kind, Variant};
use crate::validation::{
    is_sigil, reference_parse_view, valid_room_alias_id, valid_room_id, valid_room_reference,
};

verus! {

/// A room reference accepts exactly the union of what the two concrete
/// identifier types accept, and every string accepted as a room ID or as a
/// room alias ID is classified as the kind it came from.
pub proof fn lemma_reference_accepts_concrete(s: Seq<char>)
    ensures
        valid_room_id(s) ==> (reference_parse_view(s) == Result::<Seq<char>, Error>::Ok(s)
            && reference_kind(s) == Variant::RoomId),
        valid_room_alias_id(s) ==> (reference_parse_view(s) == Result::<Seq<char>, Error>::Ok(s)
            && reference_kind(s) == Variant::RoomAliasId),
        valid_room_reference(s) <==> (valid_room_id(s) || valid_room_alias_id(s)),
{
}

/// A string that does not start with `!` or `#` is rejected with
/// `MissingLeadingSigil`, whatever else it holds.
pub proof fn lemma_missing_sigil_rejected(s: Seq<char>)
    ensures
        (s.len() == 0 || !is_sigil(s[0])) ==> reference_parse_view(s) == Result::<
            Seq<char>,
            Error,
        >::Err(Error::MissingLeadingSigil),
{
}

/// Round trip: the canonical text of a valid room reference (which `as_str`
/// returns unchanged) is accepted by `parse`, which reproduces exactly the
/// same characters.
pub proof fn lemma_parse_round_trip(s: Seq<char>)
    ensures
        valid_room_reference(s) ==> reference_parse_view(s) == Result::<Seq<char>, Error>::Ok(s),
{
}

/// Narrowing is lossless: a room reference of the room-ID kind is itself a
/// valid room ID, and one of the alias kind a valid room alias ID, with the
/// same characters — so each narrowing conversion hands the value across
/// unchanged, whichever side it lands on.
pub proof fn lemma_narrowing_lossless(s: Seq<char>)
    ensures
        (valid_room_reference(s) && reference_kind(s) == Variant::RoomId) ==> valid_room_id(s),
        (valid_room_reference(s) && reference_kind(s) == Variant::RoomAliasId)
            ==> valid_room_alias_id(s),
{
}

/// Widening then narrowing returns the original: a room ID wrapped as a room
/// reference keeps its characters and is classified as the room-ID kind, so
/// narrowing hands back a room ID with exactly the original characters; the
/// same holds for a room alias ID.
pub proof fn lemma_widen_narrow_round_trip(s: Seq<char>)
    ensures
        valid_room_id(s) ==> reference_kind(s) == Variant::RoomId,
        valid_room_alias_id(s) ==> reference_kind(s) == Variant::RoomAliasId,
{
}

} // verus!
