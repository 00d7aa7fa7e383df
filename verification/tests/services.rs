use steamidfx::error::Error;
use steamidfx::id::Id;
use steamidfx::id::Id64;
use steamidfx::id::OnlineState;
use steamidfx::services::SteamCoProfile;
use steamidfx::services::get_steamco_profile_url;
use steamidfx::services::parse_bool_text;

#[test]
fn steamidco_profile_parse_ok() {
    // The profile record as the transport layer hands it over, with the id
    // arriving as the quoted decimal text the lookup service reports.
    let profile = SteamCoProfile {
        steam_id: Id::from_str("76561197992396121").unwrap(),
        name: "Z U L U A".to_owned(),
        member_since: "September 7th, 2007".to_owned(),
        online_state: OnlineState::Offline,
        vac_banned: parse_bool_text("0").unwrap(),
        state_message: "Last Online 8 hrs, 59 mins ago".to_owned(),
    };
    assert_eq!(profile.steam_id, Id::Id64(Id64(76561197992396121)));
    assert!(!profile.vac_banned);
}

#[test]
fn profile_url_holds_the_packed_decimal() {
    let id = Id::from_str("STEAM_0:0:11526534").unwrap();
    assert_eq!(
        get_steamco_profile_url(&id).unwrap(),
        "http://steamid.co/php/api.php?action=steamID64&id=76561197983318796"
    );
    let id = Id::Id64(Id64(76561197992396121));
    assert_eq!(
        get_steamco_profile_url(&id).unwrap(),
        "http://steamid.co/php/api.php?action=steamID64&id=76561197992396121"
    );
    let bad = Id::from_str("STEAM_6:0:1").unwrap();
    assert_eq!(get_steamco_profile_url(&bad), Err(Error::InvalidUniverse(6)));
}

#[test]
fn bool_text_accepts_all_spellings() {
    assert_eq!(parse_bool_text("0"), Some(false));
    assert_eq!(parse_bool_text("1"), Some(true));
    assert_eq!(parse_bool_text("true"), Some(true));
    assert_eq!(parse_bool_text("false"), Some(false));
    assert_eq!(parse_bool_text("2"), None);
    assert_eq!(parse_bool_text(""), None);
    assert_eq!(parse_bool_text("yes"), None);
}
