use steamidfx::decimal::u64_to_dec_string;
use steamidfx::error::Error;
use steamidfx::error::IdField;
use steamidfx::id::AccountType;
use steamidfx::id::Id;
use steamidfx::id::Id3;
use steamidfx::id::Id32;
use steamidfx::id::Id64;
use steamidfx::id::Universe;

#[test]
fn steam_id_enum_serialize() {
    // The canonical serialized form of every id is the decimal value of its
    // packed representation.
    let id = Id::Id64(Id64(76561197983318796));
    assert_eq!(
        u64_to_dec_string(id.id64().unwrap().0),
        "76561197983318796"
    );
    let id = Id::Id32(Id32("STEAM_0:0:11526534".to_owned()));
    assert_eq!(
        u64_to_dec_string(id.id64().unwrap().0),
        "76561197983318796"
    );
    let id = Id::Id3(Id3("U:1:23053068".to_owned()));
    assert_eq!(
        u64_to_dec_string(id.id64().unwrap().0),
        "76561197983318796"
    );
}

#[test]
fn steam_id_enum_deserialize() {
    let strid32 = "STEAM_0:0:11526534";
    let id32 = Id::from_str(strid32).unwrap();
    assert_eq!(id32, Id::Id32(Id32("STEAM_0:0:11526534".to_owned())));
    let id64 = Id::try_from(76561197983318796).unwrap();
    assert_eq!(id64, Id::Id64(Id64(76561197983318796)));
    let strid64s = "76561197983318796";
    let id64s = Id::from_str(strid64s).unwrap();
    assert_eq!(id64s, Id::Id64(Id64(76561197983318796)));
    let strid3 = "U:1:23053068";
    let id3 = Id::from_str(strid3).unwrap();
    assert_eq!(id3, Id::Id3(Id3("U:1:23053068".to_owned())));
}

#[test]
fn decode_info_round_trip() {
    // Decoding the packed value and re-encoding through the simple
    // constructor reproduces it exactly.
    let old_id = Id64(76561197983318796);
    let info = old_id.info().unwrap();
    assert_eq!(info.universe, Universe::Public);
    assert_eq!(info.account_type, AccountType::Individual);
    assert_eq!(info.instance, 1);
    assert_eq!(info.account, 11526534);
    assert_eq!(info.authentication_server, 0);
    let new_id = Id64::new_simple(info.universe, info.authentication_server, info.account).unwrap();
    assert_eq!(old_id, new_id);
    let full_id = Id64::new_full(
        info.universe,
        info.account_type,
        info.instance,
        info.authentication_server,
        info.account,
    )
    .unwrap();
    assert_eq!(old_id, full_id);
}

#[test]
fn conversion_chain_pairwise() {
    let steam_id_64 = Id64(76561197983318796);
    let steam_id_3 = Id3("U:1:23053068".to_owned());
    assert_eq!(
        Id32::try_from_id3(&steam_id_3).unwrap(),
        Id32("STEAM_0:0:11526534".to_owned())
    );
    assert_eq!(
        Id64::try_from_id3(&steam_id_3).unwrap(),
        Id64(76561197983318796)
    );
    assert_eq!(
        Id32::try_from_id64(steam_id_64).unwrap(),
        Id32("STEAM_0:0:11526534".to_owned())
    );
    assert_eq!(
        Id64::try_from_id32(&Id32("STEAM_0:0:11526534".to_owned())).unwrap(),
        Id64(76561197983318796)
    );
    assert_eq!(
        Id3::try_from_id32(&Id32("STEAM_0:0:11526534".to_owned())).unwrap(),
        Id3("U:1:23053068".to_owned())
    );
}

#[test]
fn is_same_across_formats() {
    let id_64 = Id::try_from(76561197983318796).unwrap();
    let id_32 = Id::from_str("STEAM_0:0:11526534").unwrap();
    let id_3 = Id::from_str("U:1:23053068").unwrap();
    assert!(id_3.is_same(&id_32).unwrap());
    assert!(id_32.is_same(&id_64).unwrap());
    assert!(id_64.is_same(&id_3).unwrap());
    // The derived equality distinguishes the formats; is_same does not.
    assert_ne!(id_3, id_32);
    let other = Id::from_str("STEAM_0:1:11526534").unwrap();
    assert!(!other.is_same(&id_64).unwrap());
}

#[test]
fn short_tiny_short_fixed_point() {
    // Halving with a parity digit exactly undoes doubling: one round trip
    // through the tiny format is the identity on canonical classic text.
    for text in ["STEAM_0:1:0", "STEAM_0:0:1", "STEAM_0:0:11526534", "STEAM_0:1:2147483647"] {
        let short = Id32(text.to_owned());
        let tiny = Id3::try_from_id32(&short).unwrap();
        let back = Id32::try_from_id3(&tiny).unwrap();
        assert_eq!(back, short);
    }
    let tiny = Id3::try_from_id32(&Id32("STEAM_0:1:0".to_owned())).unwrap();
    assert_eq!(tiny, Id3("U:1:1".to_owned()));
    let odd = Id32::try_from_id3(&Id3("U:1:23053069".to_owned())).unwrap();
    assert_eq!(odd, Id32("STEAM_0:1:11526534".to_owned()));
}

#[test]
fn malformed_inputs_fail_with_invalid_id() {
    for text in ["not-an-id", "STEAM_0:0", "U:23053068", "", "STEAM_0:0:", "STEAM_00:0:1", "U:12:5"] {
        let r = Id::from_str(text);
        assert!(matches!(r, Err(Error::InvalidSteamId(ref t)) if t == text));
    }
}

#[test]
fn out_of_range_codes_are_rejected() {
    // Universe code 6 sits in the topmost byte.
    let bad_universe = Id64(6u64 << 56);
    assert_eq!(
        bad_universe.info(),
        Err(Error::InvalidUniverse(6))
    );
    // Account-type code 11 sits in the next four bits.
    let bad_type = Id64((1u64 << 56) | (11u64 << 52));
    assert_eq!(bad_type.info(), Err(Error::InvalidAccountType(11)));
    assert_eq!(Universe::try_from(6), Err(Error::InvalidUniverse(6)));
    assert_eq!(AccountType::try_from(11), Err(Error::InvalidAccountType(11)));
    assert_eq!(Id::try_from(6u64 << 56), Err(Error::InvalidUniverse(6)));
}

#[test]
fn new_full_rejects_wide_fields() {
    assert_eq!(
        Id64::new_full(Universe::Public, AccountType::Individual, 1 << 20, 0, 1),
        Err(Error::FieldOutOfRange(IdField::Instance, 1 << 20))
    );
    assert_eq!(
        Id64::new_full(Universe::Public, AccountType::Individual, 1, 0, 1 << 31),
        Err(Error::FieldOutOfRange(IdField::Account, 1 << 31))
    );
    assert_eq!(
        Id64::new_full(Universe::Public, AccountType::Individual, 1, 2, 1),
        Err(Error::FieldOutOfRange(IdField::AuthenticationServer, 2))
    );
    assert_eq!(
        Id64::new_simple(Universe::Public, 0, u32::MAX),
        Err(Error::FieldOutOfRange(IdField::Account, u32::MAX as u64))
    );
}

#[test]
fn id32_to_id64_coerces_universe_zero() {
    // The community tools write universe 0 to mean "default"; on the wire it
    // is coerced to 1.
    let id = Id64::try_from_id32(&Id32("STEAM_0:0:1".to_owned())).unwrap();
    assert_eq!(id.info().unwrap().universe, Universe::Public);
    // A nonzero digit is kept.
    let id = Id64::try_from_id32(&Id32("STEAM_2:0:1".to_owned())).unwrap();
    assert_eq!(id.info().unwrap().universe, Universe::Beta);
    // A digit past the last universe is rejected, after the coercion.
    assert_eq!(
        Id64::try_from_id32(&Id32("STEAM_6:0:1".to_owned())),
        Err(Error::InvalidUniverse(6))
    );
}

#[test]
fn id32_to_id64_range_errors() {
    assert_eq!(
        Id64::try_from_id32(&Id32("STEAM_0:0:2147483648".to_owned())),
        Err(Error::FieldOutOfRange(IdField::Account, 2147483648))
    );
    assert_eq!(
        Id64::try_from_id32(&Id32("STEAM_0:0:4294967296".to_owned())),
        Err(Error::NumericParseFailure)
    );
    assert_eq!(
        Id64::try_from_id32(&Id32("STEAM_0:7:1".to_owned())),
        Err(Error::FieldOutOfRange(IdField::AuthenticationServer, 7))
    );
    assert_eq!(
        Id64::try_from_id32(&Id32("STEAM_0:0".to_owned())),
        Err(Error::InvalidSteamId("STEAM_0:0".to_owned()))
    );
}

#[test]
fn id3_conversion_errors() {
    assert_eq!(
        Id32::try_from_id3(&Id3("X:1:5".to_owned())),
        Err(Error::InvalidAccountTypeChar('X'))
    );
    assert_eq!(
        Id32::try_from_id3(&Id3("U:1:4294967296".to_owned())),
        Err(Error::NumericParseFailure)
    );
    assert_eq!(
        Id32::try_from_id3(&Id3("U:23053068".to_owned())),
        Err(Error::InvalidSteamId("U:23053068".to_owned()))
    );
    // Doubling the largest classic account still fits 64 bits, but a tiny
    // account past 64 bits does not parse.
    assert_eq!(
        Id3::try_from_id32(&Id32("STEAM_0:0:99999999999999999999".to_owned())),
        Err(Error::NumericParseFailure)
    );
    assert_eq!(
        Id3::try_from_id32(&Id32("STEAM_0:1:18446744073709551615".to_owned())),
        Err(Error::NumericParseFailure)
    );
}

#[test]
fn id3_info_defaults() {
    let info = Id3("U:1:23053068".to_owned()).info().unwrap();
    assert_eq!(info.universe, Universe::IndividualOrUnspecified);
    assert_eq!(info.account_type, AccountType::Individual);
    assert_eq!(info.instance, 1);
    assert_eq!(info.account, 23053068);
    assert_eq!(info.authentication_server, 1);
    // The chat type is reachable through several characters.
    assert_eq!(
        Id3("T:0:7".to_owned()).info().unwrap().account_type,
        AccountType::Chat
    );
    assert_eq!(
        Id3("L:0:7".to_owned()).info().unwrap().account_type,
        AccountType::Chat
    );
    assert_eq!(
        Id3("c:0:7".to_owned()).info().unwrap().account_type,
        AccountType::Chat
    );
    assert_eq!(
        Id3("g:0:7".to_owned()).info().unwrap().account_type,
        AccountType::Clan
    );
}

#[test]
fn account_type_from_str_rules() {
    assert_eq!(AccountType::from_str("U"), Ok(AccountType::Individual));
    assert_eq!(AccountType::from_str("a"), Ok(AccountType::AnonymousUser));
    assert_eq!(
        AccountType::from_str("UU"),
        Err(Error::InvalidAccountTypeText("UU".to_owned()))
    );
    assert_eq!(
        AccountType::from_str(""),
        Err(Error::InvalidAccountTypeText("".to_owned()))
    );
    assert_eq!(
        AccountType::try_from_char('z'),
        Err(Error::InvalidAccountTypeChar('z'))
    );
}

#[test]
fn into_conversions_wrap_the_result() {
    let id = Id::from_str("U:1:23053068").unwrap();
    assert_eq!(
        id.clone().into_id64().unwrap(),
        Id::Id64(Id64(76561197983318796))
    );
    assert_eq!(
        id.into_id32().unwrap(),
        Id::Id32(Id32("STEAM_0:0:11526534".to_owned()))
    );
    let already = Id::Id64(Id64(76561197983318796));
    assert_eq!(already.clone().into_id64().unwrap(), already);
}

#[test]
fn display_strings() {
    assert_eq!(
        Id::Id64(Id64(76561197983318796)).display_string(),
        "76561197983318796"
    );
    assert_eq!(
        Id::Id32(Id32("STEAM_0:0:11526534".to_owned())).display_string(),
        "STEAM_0:0:11526534"
    );
    assert_eq!(
        Id::Id3(Id3("U:1:23053068".to_owned())).display_string(),
        "U:1:23053068"
    );
    assert_eq!(Universe::Public.display_name(), "Public");
    assert_eq!(Universe::Rc.display_name(), "RC");
    assert_eq!(AccountType::Chat.display_name(), "Chat");
    assert_eq!(
        AccountType::PeerToPeerSuperSeeder.display_name(),
        "Peer to peer superseeder"
    );
}

#[test]
fn parse_accepts_only_whole_decimal_u64() {
    // 2^64 does not fit: it is no packed id, and no text format either.
    let too_big = "18446744073709551616";
    assert!(matches!(
        Id::from_str(too_big),
        Err(Error::InvalidSteamId(ref t)) if t == too_big
    ));
    // u64::MAX itself parses as a packed id (validation happens on decode).
    assert_eq!(
        Id::from_str("18446744073709551615").unwrap(),
        Id::Id64(Id64(u64::MAX))
    );
    assert_eq!(u64_to_dec_string(0), "0");
    assert_eq!(u64_to_dec_string(u64::MAX), "18446744073709551615");
}
