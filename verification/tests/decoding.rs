use rocket_league_api::decode::{decode_body, decode_document, field, Decode, Double};
use rocket_league_api::responses::{
    PlatformPopulationResponse, PlayerSkillResponse, PlayerStatResponse, PlayerTitlesResponse,
    PlaylistSkillResponse, PopulationResponse, RegionResponse, SkillLeaderboardResponse,
    StatLeaderboardResponse, StatValueForUserMultipleResponse, StatValueForUserResponse,
};
use rocket_league_api::Error;

fn value(text: &str) -> serde_json::Value {
    serde_json::from_str(text).unwrap()
}

fn double(bits: Double) -> f64 {
    f64::from_bits(bits.bits)
}

#[test]
fn text_is_decoded_from_a_string_only() {
    assert_eq!(String::decode(&value(r#""abc""#)), Ok("abc".to_string()));
    assert_eq!(String::decode(&value(r#""""#)), Ok(String::new()));
    assert_eq!(String::decode(&value(r#""a\"\u00e9\n""#)), Ok("a\"\u{e9}\n".to_string()));
    for other in ["null", "true", "1", "1.5", "[]", "{}", r#"["a"]"#] {
        assert_eq!(String::decode(&value(other)), Err(Error::Parse));
    }
    assert_eq!(String::absent(), Err(Error::Parse));
}

#[test]
fn integer_is_decoded_from_an_integer_only() {
    assert_eq!(i64::decode(&value("0")), Ok(0));
    assert_eq!(i64::decode(&value("-12")), Ok(-12));
    assert_eq!(i64::decode(&value("9223372036854775807")), Ok(i64::MAX));
    assert_eq!(i64::decode(&value("-9223372036854775808")), Ok(i64::MIN));
    let others =
        ["9223372036854775808", "1.0", "1e2", "-0.5", "null", "\"1\"", "[1]", "{}", "false"];
    for other in others {
        assert_eq!(i64::decode(&value(other)), Err(Error::Parse));
    }
    assert_eq!(i64::absent(), Err(Error::Parse));
}

#[test]
fn double_is_decoded_from_any_number() {
    assert_eq!(double(Double::decode(&value("25.0")).unwrap()), 25.0);
    assert_eq!(double(Double::decode(&value("-0.125")).unwrap()), -0.125);
    assert_eq!(double(Double::decode(&value("8")).unwrap()), 8.0);
    assert_eq!(double(Double::decode(&value("-3")).unwrap()), -3.0);
    assert_eq!(double(Double::decode(&value("1e3")).unwrap()), 1000.0);
    assert_eq!(Double::decode(&value("25.0")), Ok(Double { bits: 25.0_f64.to_bits() }));
    for other in ["null", "\"25.0\"", "[25.0]", "{}", "true"] {
        assert_eq!(Double::decode(&value(other)), Err(Error::Parse));
    }
    assert_eq!(Double::absent(), Err(Error::Parse));
}

#[test]
fn optional_is_absent_for_null_and_for_nothing() {
    assert_eq!(Option::<i64>::decode(&value("null")), Ok(None));
    assert_eq!(Option::<i64>::decode(&value("0")), Ok(Some(0)));
    assert_eq!(Option::<i64>::decode(&value("\"0\"")), Err(Error::Parse));
    assert_eq!(Option::<String>::decode(&value("null")), Ok(None));
    assert_eq!(Option::<String>::decode(&value("\"\"")), Ok(Some(String::new())));
    assert_eq!(Option::<String>::decode(&value("0")), Err(Error::Parse));
    assert_eq!(Option::<i64>::absent(), Ok(None));
    assert_eq!(Option::<String>::absent(), Ok(None));
}

#[test]
fn list_is_decoded_from_an_array_in_order() {
    assert_eq!(Vec::<i64>::decode(&value("[]")), Ok(vec![]));
    assert_eq!(Vec::<i64>::decode(&value("[3,1,2,1]")), Ok(vec![3, 1, 2, 1]));
    assert_eq!(
        Vec::<String>::decode(&value(r#"["b","a"]"#)),
        Ok(vec!["b".to_string(), "a".to_string()])
    );
    assert_eq!(Vec::<Option<i64>>::decode(&value("[1,null]")), Ok(vec![Some(1), None]));
    assert_eq!(Vec::<i64>::decode(&value("[1,\"2\",3]")), Err(Error::Parse));
    assert_eq!(Vec::<i64>::decode(&value("[1,2,null]")), Err(Error::Parse));
    for other in ["null", "1", "\"[]\"", "{}", "{\"0\":1}"] {
        assert_eq!(Vec::<i64>::decode(&value(other)), Err(Error::Parse));
    }
    assert_eq!(Vec::<i64>::absent(), Err(Error::Parse));
}

#[test]
fn member_of_an_object() {
    let object = value(r#"{"a":1,"b":null,"c":"x","A":2}"#);
    assert_eq!(field::<i64>(&object, "a"), Ok(1));
    assert_eq!(field::<i64>(&object, "A"), Ok(2));
    assert_eq!(field::<String>(&object, "c"), Ok("x".to_string()));
    assert_eq!(field::<i64>(&object, "c"), Err(Error::Parse));
    assert_eq!(field::<i64>(&object, "b"), Err(Error::Parse));
    assert_eq!(field::<i64>(&object, "d"), Err(Error::Parse));
    assert_eq!(field::<Option<i64>>(&object, "a"), Ok(Some(1)));
    assert_eq!(field::<Option<i64>>(&object, "b"), Ok(None));
    assert_eq!(field::<Option<i64>>(&object, "d"), Ok(None));
    assert_eq!(field::<Option<i64>>(&object, "c"), Err(Error::Parse));
}

#[test]
fn member_of_what_is_no_object() {
    for other in ["null", "1", "\"a\"", "[]", r#"[{"a":1}]"#] {
        assert_eq!(field::<i64>(&value(other), "a"), Err(Error::Parse));
        assert_eq!(field::<Option<i64>>(&value(other), "a"), Err(Error::Parse));
    }
}

#[test]
fn last_of_repeated_members_counts() {
    let object = value(r#"{"a":1,"a":"x"}"#);
    assert_eq!(field::<String>(&object, "a"), Ok("x".to_string()));
    assert_eq!(field::<i64>(&object, "a"), Err(Error::Parse));
}

#[test]
fn document_that_was_rejected_is_parse() {
    assert_eq!(decode_document::<i64>(None), Err(Error::Parse));
    assert_eq!(decode_document::<Option<i64>>(None), Err(Error::Parse));
    assert_eq!(decode_document::<i64>(Some(value("5"))), Ok(5));
    assert_eq!(decode_document::<i64>(Some(value("\"5\""))), Err(Error::Parse));
    assert_eq!(decode_document::<Option<i64>>(Some(value("null"))), Ok(None));
}

#[test]
fn body_is_decoded_as_a_whole() {
    assert_eq!(decode_body::<i64>(b"12"), Ok(12));
    assert_eq!(decode_body::<i64>(b" 12\n"), Ok(12));
    assert_eq!(decode_body::<Vec<String>>(br#"["a"]"#), Ok(vec!["a".to_string()]));
    assert_eq!(decode_body::<i64>(b""), Err(Error::Parse));
    assert_eq!(decode_body::<i64>(b"12 13"), Err(Error::Parse));
    assert_eq!(decode_body::<i64>(b"twelve"), Err(Error::Parse));
    assert_eq!(decode_body::<String>(b"\"\xc3\x28\""), Err(Error::Parse));
    assert_eq!(decode_body::<Option<i64>>(b"null"), Ok(None));
}

#[test]
fn player_skill_with_every_member() {
    let record = PlayerSkillResponse::decode(&value(
        r#"{"user_id":"765","user_name":"x","player_skills":[
            {"playlist":10,"tier":3,"tier_max":5,"division":1,"skill":420,"mu":25.5,"sigma":8.25,
             "win_streak":-2,"matches_played":31},
            {"playlist":11,"mu":20,"sigma":1}],"season_rewards":{"level":2}}"#,
    ))
    .unwrap();
    assert_eq!(record.user_id.as_deref(), Some("765"));
    assert_eq!(record.user_name, "x");
    assert_eq!(
        record.player_skills[0],
        PlaylistSkillResponse {
            playlist: 10,
            tier: Some(3),
            tier_max: Some(5),
            division: Some(1),
            skill: Some(420),
            mu: Double { bits: 25.5_f64.to_bits() },
            sigma: Double { bits: 8.25_f64.to_bits() },
            win_streak: Some(-2),
            matches_played: Some(31),
        }
    );
    assert_eq!(record.player_skills[1].playlist, 11);
    assert_eq!(double(record.player_skills[1].mu), 20.0);
    assert_eq!(double(record.player_skills[1].sigma), 1.0);
    assert_eq!(record.player_skills[1].tier, None);
}

#[test]
fn player_skill_needs_name_and_skills() {
    let decode = |text: &str| PlayerSkillResponse::decode(&value(text));
    assert!(decode(r#"{"user_name":"x","player_skills":[]}"#).is_ok());
    assert!(decode(r#"{"user_id":null,"user_name":"x","player_skills":[]}"#).is_ok());
    assert_eq!(decode(r#"{"user_id":"1","player_skills":[]}"#), Err(Error::Parse));
    assert_eq!(decode(r#"{"user_id":"1","user_name":"x"}"#), Err(Error::Parse));
    assert_eq!(decode(r#"{"user_name":null,"player_skills":[]}"#), Err(Error::Parse));
    assert_eq!(decode(r#"{"user_name":"x","player_skills":null}"#), Err(Error::Parse));
    assert_eq!(decode(r#"{"user_name":"x","player_skills":{}}"#), Err(Error::Parse));
    assert_eq!(decode(r#"{"user_id":1,"user_name":"x","player_skills":[]}"#), Err(Error::Parse));
    assert_eq!(decode(r#"{"USER_NAME":"x","player_skills":[]}"#), Err(Error::Parse));
    assert_eq!(decode(r#"["1","x",[]]"#), Err(Error::Parse));
    assert_eq!(PlayerSkillResponse::absent(), Err(Error::Parse));
}

#[test]
fn playlist_skill_needs_playlist_mu_and_sigma() {
    let decode = |text: &str| PlaylistSkillResponse::decode(&value(text));
    let record = decode(r#"{"playlist":10,"mu":25.0,"sigma":8.0}"#).unwrap();
    assert_eq!(record.playlist, 10);
    assert_eq!(double(record.mu), 25.0);
    assert_eq!(double(record.sigma), 8.0);
    assert_eq!(
        (record.tier, record.tier_max, record.division, record.skill),
        (None, None, None, None)
    );
    assert_eq!((record.win_streak, record.matches_played), (None, None));
    let record = decode(r#"{"playlist":10,"mu":25.0,"sigma":8.0,"tier":0,"skill":null}"#).unwrap();
    assert_eq!(record.tier, Some(0));
    assert_eq!(record.skill, None);
    assert_eq!(decode(r#"{"mu":25.0,"sigma":8.0}"#), Err(Error::Parse));
    assert_eq!(decode(r#"{"playlist":10,"sigma":8.0}"#), Err(Error::Parse));
    assert_eq!(decode(r#"{"playlist":10,"mu":25.0}"#), Err(Error::Parse));
    assert_eq!(decode(r#"{"playlist":10.0,"mu":25.0,"sigma":8.0}"#), Err(Error::Parse));
    assert_eq!(decode(r#"{"playlist":10,"mu":"25.0","sigma":8.0}"#), Err(Error::Parse));
    assert_eq!(decode(r#"{"playlist":10,"mu":25.0,"sigma":null}"#), Err(Error::Parse));
    assert_eq!(decode(r#"{"playlist":10,"mu":25.0,"sigma":8.0,"tier":"3"}"#), Err(Error::Parse));
    assert_eq!(decode(r#"{"playlist":10,"mu":25.0,"sigma":8.0,"tier":3.5}"#), Err(Error::Parse));
    assert_eq!(PlaylistSkillResponse::absent(), Err(Error::Parse));
}

#[test]
fn player_titles_need_the_titles() {
    let decode = |text: &str| PlayerTitlesResponse::decode(&value(text));
    assert_eq!(decode(r#"{"titles":[]}"#), Ok(PlayerTitlesResponse { titles: vec![] }));
    assert_eq!(
        decode(r#"{"titles":["b","a","b"]}"#).unwrap().titles,
        vec!["b".to_string(), "a".to_string(), "b".to_string()]
    );
    assert_eq!(decode(r#"{}"#), Err(Error::Parse));
    assert_eq!(decode(r#"{"titles":null}"#), Err(Error::Parse));
    assert_eq!(decode(r#"{"titles":"a"}"#), Err(Error::Parse));
    assert_eq!(decode(r#"{"titles":["a",1]}"#), Err(Error::Parse));
    assert_eq!(decode(r#"["a"]"#), Err(Error::Parse));
    assert_eq!(PlayerTitlesResponse::absent(), Err(Error::Parse));
}

#[test]
fn population_needs_all_four_platforms() {
    let decode = |text: &str| PopulationResponse::decode(&value(text));
    let record = decode(
        r#"{"XboxOne":[{"PlaylistID":1,"NumPlayers":2}],"Switch":[{"PlaylistID":3,"NumPlayers":4}],
            "Steam":[{"PlaylistID":5,"NumPlayers":6}],"PS4":[{"PlaylistID":7,"NumPlayers":8}]}"#,
    )
    .unwrap();
    assert_eq!(record.xbox_one, vec![PlatformPopulationResponse { playlist: 1, num_players: 2 }]);
    assert_eq!(record.switch, vec![PlatformPopulationResponse { playlist: 3, num_players: 4 }]);
    assert_eq!(record.steam, vec![PlatformPopulationResponse { playlist: 5, num_players: 6 }]);
    assert_eq!(record.ps4, vec![PlatformPopulationResponse { playlist: 7, num_players: 8 }]);
    assert_eq!(decode(r#"{"Switch":[],"Steam":[],"PS4":[]}"#), Err(Error::Parse));
    assert_eq!(decode(r#"{"XboxOne":[],"Steam":[],"PS4":[]}"#), Err(Error::Parse));
    assert_eq!(decode(r#"{"XboxOne":[],"Switch":[],"PS4":[]}"#), Err(Error::Parse));
    assert_eq!(decode(r#"{"XboxOne":[],"Switch":[],"Steam":[]}"#), Err(Error::Parse));
    assert_eq!(
        decode(r#"{"xbox_one":[],"switch":[],"steam":[],"ps4":[]}"#),
        Err(Error::Parse)
    );
    assert_eq!(
        decode(r#"{"XboxOne":[],"Switch":[],"Steam":[],"Ps4":[]}"#),
        Err(Error::Parse)
    );
    assert_eq!(PopulationResponse::absent(), Err(Error::Parse));
}

#[test]
fn platform_population_needs_both_numbers() {
    let decode = |text: &str| PlatformPopulationResponse::decode(&value(text));
    assert_eq!(
        decode(r#"{"PlaylistID":10,"NumPlayers":123}"#),
        Ok(PlatformPopulationResponse { playlist: 10, num_players: 123 })
    );
    assert_eq!(decode(r#"{"NumPlayers":123}"#), Err(Error::Parse));
    assert_eq!(decode(r#"{"PlaylistID":10}"#), Err(Error::Parse));
    assert_eq!(decode(r#"{"playlist":10,"num_players":123}"#), Err(Error::Parse));
    assert_eq!(decode(r#"{"PlaylistId":10,"NumPlayers":123}"#), Err(Error::Parse));
    assert_eq!(decode(r#"{"PlaylistID":"10","NumPlayers":123}"#), Err(Error::Parse));
    assert_eq!(PlatformPopulationResponse::absent(), Err(Error::Parse));
}

#[test]
fn region_needs_platforms_and_region() {
    let decode = |text: &str| RegionResponse::decode(&value(text));
    assert_eq!(
        decode(r#"{"platforms":"Steam","region":"anything at all"}"#),
        Ok(RegionResponse { platforms: "Steam".to_string(), region: "anything at all".to_string() })
    );
    assert_eq!(decode(r#"{"region":"EU"}"#), Err(Error::Parse));
    assert_eq!(decode(r#"{"platforms":"Steam"}"#), Err(Error::Parse));
    assert_eq!(decode(r#"{"platforms":"Steam","region":null}"#), Err(Error::Parse));
    assert_eq!(decode(r#"{"platforms":["Steam"],"region":"EU"}"#), Err(Error::Parse));
    assert_eq!(RegionResponse::absent(), Err(Error::Parse));
}

#[test]
fn skill_leaderboard_needs_name_tier_and_skill() {
    let decode = |text: &str| SkillLeaderboardResponse::decode(&value(text));
    assert_eq!(
        decode(r#"{"user_id":"1","user_name":"n","tier":19,"skill":1500}"#),
        Ok(SkillLeaderboardResponse {
            user_id: Some("1".to_string()),
            user_name: "n".to_string(),
            tier: 19,
            skill: 1500,
        })
    );
    assert_eq!(decode(r#"{"user_name":"n","tier":0,"skill":0}"#).unwrap().user_id, None);
    assert_eq!(decode(r#"{"tier":19,"skill":1500}"#), Err(Error::Parse));
    assert_eq!(decode(r#"{"user_name":"n","skill":1500}"#), Err(Error::Parse));
    assert_eq!(decode(r#"{"user_name":"n","tier":19}"#), Err(Error::Parse));
    assert_eq!(decode(r#"{"user_name":"n","tier":null,"skill":1}"#), Err(Error::Parse));
    assert_eq!(SkillLeaderboardResponse::absent(), Err(Error::Parse));
}

#[test]
fn stat_leaderboard_needs_stats_and_type() {
    let decode = |text: &str| StatLeaderboardResponse::decode(&value(text));
    let record = decode(
        r#"{"stat_type":"goals","stats":[{"user_id":"1","user_name":"n","assists":1,"goals":2,
            "mvps":3,"saves":4,"shots":5,"wins":6},{"user_name":"m"}]}"#,
    )
    .unwrap();
    assert_eq!(record.stat_type, "goals");
    assert_eq!(
        record.stats[0],
        PlayerStatResponse {
            user_id: Some("1".to_string()),
            user_name: "n".to_string(),
            assists: Some(1),
            goals: Some(2),
            mvps: Some(3),
            saves: Some(4),
            shots: Some(5),
            wins: Some(6),
        }
    );
    assert_eq!(
        record.stats[1],
        PlayerStatResponse {
            user_id: None,
            user_name: "m".to_string(),
            assists: None,
            goals: None,
            mvps: None,
            saves: None,
            shots: None,
            wins: None,
        }
    );
    assert_eq!(decode(r#"{"stats":[]}"#), Err(Error::Parse));
    assert_eq!(decode(r#"{"stat_type":"goals"}"#), Err(Error::Parse));
    assert_eq!(decode(r#"{"stat_type":"goals","stats":[{"goals":2}]}"#), Err(Error::Parse));
    assert_eq!(StatLeaderboardResponse::absent(), Err(Error::Parse));
}

#[test]
fn player_stat_needs_the_name() {
    let decode = |text: &str| PlayerStatResponse::decode(&value(text));
    assert_eq!(decode(r#"{"user_name":"n","wins":0}"#).unwrap().wins, Some(0));
    assert_eq!(decode(r#"{"user_name":"n","wins":null}"#).unwrap().wins, None);
    assert_eq!(decode(r#"{"user_id":"1","wins":3}"#), Err(Error::Parse));
    assert_eq!(decode(r#"{"user_name":"n","wins":"3"}"#), Err(Error::Parse));
    assert_eq!(decode(r#"{"user_name":"n","shots":1.5}"#), Err(Error::Parse));
    assert_eq!(PlayerStatResponse::absent(), Err(Error::Parse));
}

#[test]
fn stat_value_for_user_holds_text() {
    let decode = |text: &str| StatValueForUserResponse::decode(&value(text));
    assert_eq!(
        decode(r#"{"user_id":"1","user_name":"n","stat_type":"wins","value":"31"}"#),
        Ok(StatValueForUserResponse {
            user_id: Some("1".to_string()),
            user_name: Some("n".to_string()),
            stat_type: "wins".to_string(),
            value: "31".to_string(),
        })
    );
    let record = decode(r#"{"stat_type":"wins","value":""}"#).unwrap();
    assert_eq!((record.user_id, record.user_name), (None, None));
    assert_eq!(decode(r#"{"stat_type":"wins","value":31}"#), Err(Error::Parse));
    assert_eq!(decode(r#"{"stat_type":"wins"}"#), Err(Error::Parse));
    assert_eq!(decode(r#"{"value":"31"}"#), Err(Error::Parse));
    assert_eq!(StatValueForUserResponse::absent(), Err(Error::Parse));
}

#[test]
fn stat_value_for_several_users_holds_an_integer() {
    let decode = |text: &str| StatValueForUserMultipleResponse::decode(&value(text));
    assert_eq!(
        decode(r#"{"user_id":"1","user_name":"n","stat_type":"wins","value":31}"#),
        Ok(StatValueForUserMultipleResponse {
            user_id: Some("1".to_string()),
            user_name: Some("n".to_string()),
            stat_type: "wins".to_string(),
            value: 31,
        })
    );
    let record = decode(r#"{"stat_type":"wins","value":0}"#).unwrap();
    assert_eq!((record.user_id, record.user_name, record.value), (None, None, 0));
    assert_eq!(decode(r#"{"stat_type":"wins","value":"31"}"#), Err(Error::Parse));
    assert_eq!(decode(r#"{"stat_type":"wins"}"#), Err(Error::Parse));
    assert_eq!(decode(r#"{"value":31}"#), Err(Error::Parse));
    assert_eq!(StatValueForUserMultipleResponse::absent(), Err(Error::Parse));
}
