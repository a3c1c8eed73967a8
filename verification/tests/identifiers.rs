use ruma_identifiers::{Error, RoomAliasId, RoomId, RoomIdOrAliasId, ServerName, Variant};

#[test]
fn valid_room_id_or_alias_id_with_a_room_alias_id() {
    assert_eq!(
        RoomIdOrAliasId::parse("#ruma:example.com")
            .expect("Failed to create RoomAliasId.")
            .as_str(),
        "#ruma:example.com"
    );
}

#[test]
fn valid_room_id_or_alias_id_with_a_room_id() {
    assert_eq!(
        RoomIdOrAliasId::parse("!29fhd83h92h0:example.com")
            .expect("Failed to create RoomId.")
            .as_str(),
        "!29fhd83h92h0:example.com"
    );
}

#[test]
fn missing_sigil_for_room_id_or_alias_id() {
    assert_eq!(
        RoomIdOrAliasId::parse("ruma:example.com").unwrap_err(),
        Error::MissingLeadingSigil
    );
}

#[test]
fn serialize_valid_room_id_or_alias_id_with_a_room_alias_id() {
    assert_eq!(
        serde_json::to_string(
            RoomIdOrAliasId::parse("#ruma:example.com")
                .expect("Failed to create RoomAliasId.")
                .as_str()
        )
        .expect("Failed to convert RoomAliasId to JSON."),
        r##""#ruma:example.com""##
    );
}

#[test]
fn serialize_valid_room_id_or_alias_id_with_a_room_id() {
    assert_eq!(
        serde_json::to_string(
            RoomIdOrAliasId::parse("!29fhd83h92h0:example.com")
                .expect("Failed to create RoomId.")
                .as_str()
        )
        .expect("Failed to convert RoomId to JSON."),
        r#""!29fhd83h92h0:example.com""#
    );
}

#[test]
fn deserialize_valid_room_id_or_alias_id_with_a_room_alias_id() {
    let decoded: String = serde_json::from_str(r##""#ruma:example.com""##)
        .expect("Failed to convert JSON to RoomAliasId");
    assert_eq!(
        RoomIdOrAliasId::parse(&decoded).expect("Failed to create RoomAliasId."),
        RoomIdOrAliasId::parse("#ruma:example.com").expect("Failed to create RoomAliasId.")
    );
}

#[test]
fn deserialize_valid_room_id_or_alias_id_with_a_room_id() {
    let decoded: String = serde_json::from_str(r##""!29fhd83h92h0:example.com""##)
        .expect("Failed to convert JSON to RoomId");
    assert_eq!(
        RoomIdOrAliasId::parse(&decoded).expect("Failed to create RoomAliasId."),
        RoomIdOrAliasId::parse("!29fhd83h92h0:example.com").expect("Failed to create RoomAliasId.")
    );
}

#[test]
fn alias_scenario_accessors() {
    let id = RoomIdOrAliasId::parse("#ruma:example.com").unwrap();
    assert_eq!(id.kind(), Variant::RoomAliasId);
    assert_eq!(id.localpart(), "ruma");
    assert_eq!(id.server_name().as_str(), "example.com");
    assert!(id.is_room_alias_id());
    assert!(!id.is_room_id());
}

#[test]
fn room_id_scenario_accessors() {
    let id = RoomIdOrAliasId::parse("!29fhd83h92h0:example.com").unwrap();
    assert_eq!(id.kind(), Variant::RoomId);
    assert_eq!(id.localpart(), "29fhd83h92h0");
    assert_eq!(id.server_name().as_str(), "example.com");
    assert!(id.is_room_id());
    assert!(!id.is_room_alias_id());
}

#[test]
fn accepts_what_room_id_accepts() {
    let concrete = RoomId::parse("!29fhd83h92h0:example.com").unwrap();
    let reference = RoomIdOrAliasId::parse(concrete.as_str()).unwrap();
    assert_eq!(reference.kind(), Variant::RoomId);
    assert_eq!(reference.as_str(), concrete.as_str());
}

#[test]
fn accepts_what_room_alias_id_accepts() {
    let concrete = RoomAliasId::parse("#ruma:example.com").unwrap();
    let reference = RoomIdOrAliasId::parse(concrete.as_str()).unwrap();
    assert_eq!(reference.kind(), Variant::RoomAliasId);
    assert_eq!(reference.as_str(), concrete.as_str());
}

#[test]
fn empty_string_is_missing_sigil() {
    assert_eq!(RoomIdOrAliasId::parse("").unwrap_err(), Error::MissingLeadingSigil);
}

#[test]
fn missing_colon_is_missing_delimiter() {
    assert_eq!(RoomIdOrAliasId::parse("!ruma").unwrap_err(), Error::MissingDelimiter);
    assert_eq!(RoomIdOrAliasId::parse("#ruma").unwrap_err(), Error::MissingDelimiter);
}

#[test]
fn bad_server_name_is_rejected() {
    assert_eq!(RoomIdOrAliasId::parse("!ruma:").unwrap_err(), Error::InvalidServerName);
    assert_eq!(
        RoomIdOrAliasId::parse("#ruma:exa mple.com").unwrap_err(),
        Error::InvalidServerName
    );
    assert_eq!(
        RoomIdOrAliasId::parse("!ruma:example.com:port").unwrap_err(),
        Error::InvalidServerName
    );
}

#[test]
fn server_name_with_port_is_accepted() {
    let id = RoomIdOrAliasId::parse("#ruma:example.com:8448").unwrap();
    assert_eq!(id.localpart(), "ruma");
    assert_eq!(id.server_name().as_str(), "example.com:8448");
}

#[test]
fn wrong_sigil_for_concrete_types() {
    assert_eq!(RoomId::parse("#ruma:example.com").unwrap_err(), Error::MissingLeadingSigil);
    assert_eq!(RoomAliasId::parse("!ruma:example.com").unwrap_err(), Error::MissingLeadingSigil);
}

#[test]
fn parse_serialize_round_trip() {
    let first = RoomIdOrAliasId::parse("#ruma:example.com").unwrap();
    let second = RoomIdOrAliasId::parse(first.as_str()).unwrap();
    assert_eq!(first, second);
    assert_eq!(first.as_str(), second.as_str());
}

#[test]
fn narrowing_returns_the_other_kind() {
    let reference = RoomIdOrAliasId::parse("!29fhd83h92h0:example.com").unwrap();
    let room_id = reference.into_room_alias_id().unwrap_err();
    assert_eq!(room_id.as_str(), "!29fhd83h92h0:example.com");

    let reference = RoomIdOrAliasId::parse("#ruma:example.com").unwrap();
    let alias = reference.into_room_id().unwrap_err();
    assert_eq!(alias.as_str(), "#ruma:example.com");
}

#[test]
fn narrowing_matching_kind_succeeds() {
    let reference = RoomIdOrAliasId::parse("!29fhd83h92h0:example.com").unwrap();
    let room_id = reference.into_room_id().unwrap();
    assert_eq!(room_id.as_str(), "!29fhd83h92h0:example.com");

    let reference = RoomIdOrAliasId::parse("#ruma:example.com").unwrap();
    let alias = reference.into_room_alias_id().unwrap();
    assert_eq!(alias.as_str(), "#ruma:example.com");
}

#[test]
fn widen_then_narrow_returns_the_original() {
    let room_id = RoomId::parse("!29fhd83h92h0:example.com").unwrap();
    let reference = RoomIdOrAliasId::from_room_id(room_id);
    assert_eq!(reference.kind(), Variant::RoomId);
    let back = reference.into_room_id().unwrap();
    assert_eq!(back, RoomId::parse("!29fhd83h92h0:example.com").unwrap());

    let alias = RoomAliasId::parse("#ruma:example.com").unwrap();
    let reference = RoomIdOrAliasId::from_room_alias_id(alias);
    assert_eq!(reference.kind(), Variant::RoomAliasId);
    let back = reference.into_room_alias_id().unwrap();
    assert_eq!(back, RoomAliasId::parse("#ruma:example.com").unwrap());
}

#[test]
fn server_name_parse_accepts_and_rejects() {
    assert_eq!(ServerName::parse("example.com").unwrap().as_str(), "example.com");
    assert_eq!(ServerName::parse("example.com:8448").unwrap().as_str(), "example.com:8448");
    assert_eq!(ServerName::parse("[::1]:8448").unwrap().as_str(), "[::1]:8448");
    assert_eq!(ServerName::parse("").unwrap_err(), Error::InvalidServerName);
    assert_eq!(ServerName::parse("exa mple.com").unwrap_err(), Error::InvalidServerName);
    assert_eq!(ServerName::parse(":8448").unwrap_err(), Error::InvalidServerName);
}

#[test]
fn equality_against_raw_string() {
    let id = RoomIdOrAliasId::parse("#ruma:example.com").unwrap();
    assert!(id.eq_str("#ruma:example.com"));
    assert!(!id.eq_str("!ruma:example.com"));
    assert!(!id.eq_str("#ruma:example.org"));
}
