//! Validated Matrix room identifiers: room IDs, room alias IDs, and the
//! union type `RoomIdOrAliasId` that accepts either, classified by its
//! leading sigil character.

mod error;
mod ids;
mod laws;
mod validation;

pub use error::Error;
pub use laws::{
    lemma_missing_sigil_rejected, lemma_narrowing_lossless, lemma_parse_round_trip,
    lemma_reference_accepts_concrete, lemma_widen_narrow_round_trip,
};
pub use ids::{reference_kind, RoomAliasId, RoomId, RoomIdOrAliasId, ServerName, Variant};
pub use validation::{
    first_colon, has_colon, is_first_colon, is_server_name, is_sigil, localpart_of,
    reference_error, reference_parse_view, server_part, sigil_id_error, valid_room_alias_id, valid_room_id,
    valid_room_reference, valid_sigil_id,
};
