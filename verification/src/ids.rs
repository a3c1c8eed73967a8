//! The validated identifier types.
//!
//! Each type wraps the exact characters it was parsed from; validity is a
//! type invariant, so every accessor is total and no method re-validates.
//! The types live in one module so that the lossless conversions between
//! them can move the backing string without exposing it.

use vstd::prelude::*;

use crate::error::Error;
use crate::validation::{
    find_colon, first_colon, is_first_colon, is_server_name, lemma_first_colon_unique,
    localpart_of, reference_error, reference_parse_view, server_name_ok, server_part,
    sigil_id_error, valid_room_alias_id, valid_room_id, valid_room_reference, valid_sigil_id,
};

verus! {

/// A validated server name: the segment after the first `:` of a room
/// identifier, accepted by the collaborating server-name validator.
#[derive(Debug)]
pub struct ServerName {
    inner: String,
}

impl View for ServerName {
    type V = Seq<char>;

    closed spec fn view(&self) -> Seq<char> {
        self.inner@
    }
}

impl ServerName {
    #[verifier::type_invariant]
    spec fn wf(&self) -> bool {
        is_server_name(self@)
    }

    /// Wraps a string already known to be a valid server name.
    pub(crate) fn from_validated(inner: String) -> (r: ServerName)
        requires
            is_server_name(inner@),
        ensures
            r@ == inner@,
    {
        ServerName { inner }
    }

    /// Validates `s` as a server name and wraps it unchanged.
    pub fn parse(s: &str) -> (r: Result<ServerName, Error>)
        ensures
            is_server_name(s@) ==> (r matches Ok(name) && name@ == s@),
            !is_server_name(s@) ==> (r matches Err(e) && e == Error::InvalidServerName),
    {
        if server_name_ok(s) {
            Ok(ServerName { inner: s.to_owned() })
        } else {
            Err(Error::InvalidServerName)
        }
    }

    /// The exact characters this server name was parsed from.
    pub fn as_str(&self) -> (r: &str)
        ensures
            r@ == self@,
            is_server_name(self@),
    {
        proof {
            use_type_invariant(&*self);
        }
        self.inner.as_str()
    }
}

/// Runs the shared identifier rule with a fixed sigil: `s` must start with
/// `sigil`, hold a `:`, and end in a valid server name. On success the exact
/// input characters are returned as an owned string.
fn parse_sigil_id(s: &str, sigil: char) -> (r: Result<String, Error>)
    ensures
        valid_sigil_id(s@, sigil) ==> (r matches Ok(inner) && inner@ == s@),
        !valid_sigil_id(s@, sigil) ==> (r matches Err(e) && e == sigil_id_error(s@, sigil)),
{
    let n = s.unicode_len();
    if n == 0 {
        return Err(Error::MissingLeadingSigil);
    }
    if s.get_char(0) != sigil {
        return Err(Error::MissingLeadingSigil);
    }
    let colon = match find_colon(s) {
        Some(i) => i,
        None => {
            return Err(Error::MissingDelimiter);
        },
    };
    proof {
        lemma_first_colon_unique(s@, colon as int);
    }
    let server = s.substring_char(colon + 1, n);
    if server_name_ok(server) {
        Ok(s.to_owned())
    } else {
        Err(Error::InvalidServerName)
    }
}

/// A validated room ID: `!`, a localpart, `:`, and a server name, wrapped
/// exactly as parsed.
#[derive(Debug)]
pub struct RoomId {
    inner: String,
}

impl View for RoomId {
    type V = Seq<char>;

    closed spec fn view(&self) -> Seq<char> {
        self.inner@
    }
}

impl RoomId {
    #[verifier::type_invariant]
    spec fn wf(&self) -> bool {
        valid_room_id(self@)
    }

    /// Wraps a string already known to be a valid room ID.
    pub(crate) fn from_validated(inner: String) -> (r: RoomId)
        requires
            valid_room_id(inner@),
        ensures
            r@ == inner@,
    {
        RoomId { inner }
    }

    /// Validates `s` as a room ID and wraps it unchanged.
    pub fn parse(s: &str) -> (r: Result<RoomId, Error>)
        ensures
            valid_room_id(s@) ==> (r matches Ok(id) && id@ == s@),
            !valid_room_id(s@) ==> (r matches Err(e) && e == sigil_id_error(s@, '!')),
    {
        match parse_sigil_id(s, '!') {
            Ok(inner) => Ok(RoomId { inner }),
            Err(e) => Err(e),
        }
    }

    /// The exact characters this room ID was parsed from.
    pub fn as_str(&self) -> (r: &str)
        ensures
            r@ == self@,
            valid_room_id(self@),
    {
        proof {
            use_type_invariant(&*self);
        }
        self.inner.as_str()
    }
}

impl PartialEq for RoomId {
    fn eq(&self, other: &RoomId) -> (r: bool) {
        self.inner == other.inner
    }
}

impl vstd::std_specs::cmp::PartialEqSpecImpl for RoomId {
    open spec fn obeys_eq_spec() -> bool {
        true
    }

    open spec fn eq_spec(&self, other: &RoomId) -> bool {
        self@ == other@
    }
}

/// A validated room alias ID: `#`, a localpart, `:`, and a server name,
/// wrapped exactly as parsed.
#[derive(Debug)]
pub struct RoomAliasId {
    inner: String,
}

impl View for RoomAliasId {
    type V = Seq<char>;

    closed spec fn view(&self) -> Seq<char> {
        self.inner@
    }
}

impl RoomAliasId {
    #[verifier::type_invariant]
    spec fn wf(&self) -> bool {
        valid_room_alias_id(self@)
    }

    /// Wraps a string already known to be a valid room alias ID.
    pub(crate) fn from_validated(inner: String) -> (r: RoomAliasId)
        requires
            valid_room_alias_id(inner@),
        ensures
            r@ == inner@,
    {
        RoomAliasId { inner }
    }

    /// Validates `s` as a room alias ID and wraps it unchanged.
    pub fn parse(s: &str) -> (r: Result<RoomAliasId, Error>)
        ensures
            valid_room_alias_id(s@) ==> (r matches Ok(id) && id@ == s@),
            !valid_room_alias_id(s@) ==> (r matches Err(e) && e == sigil_id_error(s@, '#')),
    {
        match parse_sigil_id(s, '#') {
            Ok(inner) => Ok(RoomAliasId { inner }),
            Err(e) => Err(e),
        }
    }

    /// The exact characters this room alias ID was parsed from.
    pub fn as_str(&self) -> (r: &str)
        ensures
            r@ == self@,
            valid_room_alias_id(self@),
    {
        proof {
            use_type_invariant(&*self);
        }
        self.inner.as_str()
    }
}

impl PartialEq for RoomAliasId {
    fn eq(&self, other: &RoomAliasId) -> (r: bool) {
        self.inner == other.inner
    }
}

impl vstd::std_specs::cmp::PartialEqSpecImpl for RoomAliasId {
    open spec fn obeys_eq_spec() -> bool {
        true
    }

    open spec fn eq_spec(&self, other: &RoomAliasId) -> bool {
        self@ == other@
    }
}

/// The two kinds of room reference, told apart by the leading sigil.
#[derive(Clone, Copy, Debug, PartialEq, Eq, Structural)]
pub enum Variant {
    RoomId,
    RoomAliasId,
}

/// The kind that a room reference with characters `s` belongs to: `!` marks
/// a room ID and `#` a room alias ID.
pub open spec fn reference_kind(s: Seq<char>) -> Variant {
    if s.len() > 0 && s[0] == '!' {
        Variant::RoomId
    } else {
        Variant::RoomAliasId
    }
}

/// A validated room ID or room alias ID.
///
/// `RoomIdOrAliasId` is useful where either kind of room identifier is
/// accepted. It wraps the exact characters it was parsed from; the kind is
/// derived from the leading sigil on demand and is never stored, so it can
/// never disagree with the characters.
#[derive(Debug)]
pub struct RoomIdOrAliasId {
    inner: String,
}

impl View for RoomIdOrAliasId {
    type V = Seq<char>;

    closed spec fn view(&self) -> Seq<char> {
        self.inner@
    }
}

impl RoomIdOrAliasId {
    #[verifier::type_invariant]
    spec fn wf(&self) -> bool {
        valid_room_reference(self@)
    }

    /// Validates `s` as a room reference and wraps it unchanged: `s` must
    /// start with `!` or `#`, hold a `:`, and end in a valid server name.
    /// The first failing check names the error.
    pub fn parse(s: &str) -> (r: Result<RoomIdOrAliasId, Error>)
        ensures
            valid_room_reference(s@) ==> (r matches Ok(id) && id@ == s@),
            !valid_room_reference(s@) ==> (r matches Err(e) && e == reference_error(s@)),
            match r {
                Ok(id) => reference_parse_view(s@) == Result::<Seq<char>, Error>::Ok(id@),
                Err(e) => reference_parse_view(s@) == Result::<Seq<char>, Error>::Err(e),
            },
    {
        let n = s.unicode_len();
        if n == 0 {
            return Err(Error::MissingLeadingSigil);
        }
        let sigil = s.get_char(0);
        if sigil != '!' && sigil != '#' {
            return Err(Error::MissingLeadingSigil);
        }
        let colon = match find_colon(s) {
            Some(i) => i,
            None => {
                return Err(Error::MissingDelimiter);
            },
        };
        proof {
            lemma_first_colon_unique(s@, colon as int);
        }
        let server = s.substring_char(colon + 1, n);
        if server_name_ok(server) {
            Ok(RoomIdOrAliasId { inner: s.to_owned() })
        } else {
            Err(Error::InvalidServerName)
        }
    }

    /// The exact characters this room reference was parsed from: its
    /// canonical textual form.
    pub fn as_str(&self) -> (r: &str)
        ensures
            r@ == self@,
            valid_room_reference(self@),
    {
        proof {
            use_type_invariant(&*self);
        }
        self.inner.as_str()
    }

    /// Whether this room reference's canonical text equals the raw string
    /// `other`, character for character.
    pub fn eq_str(&self, other: &str) -> (r: bool)
        ensures
            r == (self@ == other@),
    {
        self.inner == String::from_str(other)
    }

    /// The position of the first `:`; a constructed value always holds one.
    fn colon_idx(&self) -> (i: usize)
        ensures
            is_first_colon(self@, i as int),
            i as int == first_colon(self@),
    {
        proof {
            use_type_invariant(&*self);
        }
        match find_colon(self.inner.as_str()) {
            Some(i) => {
                proof {
                    lemma_first_colon_unique(self@, i as int);
                }
                i
            },
            None => {
                // a constructed value always holds a colon
                proof {
                    assert(false);
                }
                0
            },
        }
    }

    /// The localpart: everything after the sigil and before the first `:`.
    pub fn localpart(&self) -> (r: &str)
        ensures
            r@ == localpart_of(self@),
    {
        proof {
            use_type_invariant(&*self);
        }
        let i = self.colon_idx();
        self.inner.as_str().substring_char(1, i)
    }

    /// The server name: everything after the first `:`, handed out as an
    /// already-validated `ServerName` without re-running validation.
    pub fn server_name(&self) -> (r: ServerName)
        ensures
            r@ == server_part(self@),
    {
        proof {
            use_type_invariant(&*self);
        }
        let i = self.colon_idx();
        let n = self.inner.as_str().unicode_len();
        let segment = self.inner.as_str().substring_char(i + 1, n);
        ServerName::from_validated(segment.to_owned())
    }

    /// The kind of this reference, derived from the leading sigil.
    pub fn kind(&self) -> (v: Variant)
        ensures
            v == reference_kind(self@),
    {
        proof {
            use_type_invariant(&*self);
        }
        let sigil = self.inner.as_str().get_char(0);
        if sigil == '!' {
            Variant::RoomId
        } else {
            // the invariant leaves `#` as the only other sigil
            assert(sigil == '#');
            Variant::RoomAliasId
        }
    }

    /// Whether this is a room ID (starts with `!`).
    pub fn is_room_id(&self) -> (r: bool)
        ensures
            r == (reference_kind(self@) == Variant::RoomId),
    {
        self.kind() == Variant::RoomId
    }

    /// Whether this is a room alias ID (starts with `#`).
    pub fn is_room_alias_id(&self) -> (r: bool)
        ensures
            r == (reference_kind(self@) == Variant::RoomAliasId),
    {
        self.kind() == Variant::RoomAliasId
    }

    /// Wraps a room ID as a room reference; the characters are untouched.
    pub fn from_room_id(id: RoomId) -> (r: RoomIdOrAliasId)
        ensures
            r@ == id@,
            reference_kind(r@) == Variant::RoomId,
    {
        proof {
            use_type_invariant(&id);
        }
        let RoomId { inner } = id;
        RoomIdOrAliasId { inner }
    }

    /// Wraps a room alias ID as a room reference; the characters are
    /// untouched.
    pub fn from_room_alias_id(id: RoomAliasId) -> (r: RoomIdOrAliasId)
        ensures
            r@ == id@,
            reference_kind(r@) == Variant::RoomAliasId,
    {
        proof {
            use_type_invariant(&id);
        }
        let RoomAliasId { inner } = id;
        RoomIdOrAliasId { inner }
    }

    /// Narrows this reference to a `RoomId`. A reference of the alias kind
    /// is handed back whole as the `RoomAliasId` it is, not as an error
    /// code: the same characters, no data lost, nothing re-validated.
    pub fn into_room_id(self) -> (r: Result<RoomId, RoomAliasId>)
        ensures
            reference_kind(self@) == Variant::RoomId ==> (r matches Ok(id) && id@ == self@),
            reference_kind(self@) == Variant::RoomAliasId ==> (r matches Err(alias) && alias@
                == self@),
    {
        proof {
            use_type_invariant(&self);
        }
        let take_id = self.is_room_id();
        let RoomIdOrAliasId { inner } = self;
        if take_id {
            Ok(RoomId::from_validated(inner))
        } else {
            Err(RoomAliasId::from_validated(inner))
        }
    }

    /// Narrows this reference to a `RoomAliasId`; symmetric to
    /// [`Self::into_room_id`].
    pub fn into_room_alias_id(self) -> (r: Result<RoomAliasId, RoomId>)
        ensures
            reference_kind(self@) == Variant::RoomAliasId ==> (r matches Ok(alias) && alias@
                == self@),
            reference_kind(self@) == Variant::RoomId ==> (r matches Err(id) && id@ == self@),
    {
        proof {
            use_type_invariant(&self);
        }
        let take_alias = self.is_room_alias_id();
        let RoomIdOrAliasId { inner } = self;
        if take_alias {
            Ok(RoomAliasId::from_validated(inner))
        } else {
            Err(RoomId::from_validated(inner))
        }
    }
}

impl PartialEq for RoomIdOrAliasId {
    fn eq(&self, other: &RoomIdOrAliasId) -> (r: bool) {
        self.inner == other.inner
    }
}

impl vstd::std_specs::cmp::PartialEqSpecImpl for RoomIdOrAliasId {
    open spec fn obeys_eq_spec() -> bool {
        true
    }

    open spec fn eq_spec(&self, other: &RoomIdOrAliasId) -> bool {
        self@ == other@
    }
}

impl PartialEq for ServerName {
    fn eq(&self, other: &ServerName) -> (r: bool) {
        self.inner == other.inner
    }
}

impl vstd::std_specs::cmp::PartialEqSpecImpl for ServerName {
    open spec fn obeys_eq_spec() -> bool {
        true
    }

    open spec fn eq_spec(&self, other: &ServerName) -> bool {
        self@ == other@
    }
}

} // verus!
