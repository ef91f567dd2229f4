use presence_client::game::{
    current_match_id, custom_map_path, custom_mode_path, owned_agent_ids, party_id_from, player_mmr,
    remove_all, resolved_names,
};
use presence_client::logging::{emit_log, log_error, log_info, LogEmitter};
use presence_client::riot::{
    account_names, card_id_from_loadout, client_version_from, player_card_url,
    check_loadout, coregame_quit, disconnect, extract_map_name, get_cached_player, get_local_creds,
    get_status, get_token_age_secs, health_check, join_party_by_code, lock_agent, pregame_quit,
    select_agent, validate_token, ConnectionState, HealthAction, HealthStage,
};

fn connected() -> ConnectionState {
    let mut s = ConnectionState::new();
    s.connected = true;
    s.port = Some(1234);
    s.local_auth = Some("Basic abc".to_string());
    s.access_token = Some("at".to_string());
    s.entitlements = Some("et".to_string());
    s.puuid = Some("me".to_string());
    s.region = Some("eu".to_string());
    s.shard = Some("eu".to_string());
    s.client_version = Some("v1".to_string());
    s.game_name = Some("Name".to_string());
    s.game_tag = Some("0001".to_string());
    s.token_fetched_at = Some(0);
    s
}

#[test]
fn status_and_disconnect() {
    let mut s = connected();
    assert_eq!(get_status(&s), "connected");
    assert_eq!(get_local_creds(&s).unwrap(), (1234, "Basic abc".to_string()));
    disconnect(&mut s);
    assert_eq!(get_status(&s), "disconnected");
    assert!(s.access_token.is_none());
    assert!(get_cached_player(&s).is_none());
    assert!(get_local_creds(&s).is_err());
}

#[test]
fn cached_player_fields() {
    let p = get_cached_player(&connected()).unwrap();
    assert_eq!(p.puuid, "me");
    assert_eq!(p.game_tag, "0001");
    assert!(p.rso_debug.is_none());
}

#[test]
fn token_age() {
    let s = connected();
    assert_eq!(get_token_age_secs(&s, 61_500), 61);
    assert_eq!(get_token_age_secs(&ConnectionState::new(), 61_500), 0);
}

#[test]
fn request_paths() {
    let s = connected();
    assert_eq!(select_agent(&s, "m1", "a1").unwrap().path, "/pregame/v1/matches/m1/select/a1");
    assert_eq!(lock_agent(&s, "m1", "a1").unwrap().path, "/pregame/v1/matches/m1/lock/a1");
    assert_eq!(pregame_quit(&s, "m1").unwrap().path, "/pregame/v1/matches/m1/quit");
    assert_eq!(coregame_quit(&s, "m1").unwrap().path, "/core-game/v1/players/me/disassociate/m1");
    assert_eq!(join_party_by_code(&s, "XYZ").unwrap().path, "/parties/v1/players/me/joinbycode/XYZ");
    assert_eq!(check_loadout(&s).unwrap().path, "/personalization/v2/players/me/playerloadout");
    assert!(select_agent(&ConnectionState::new(), "m", "a").is_err());
}

#[test]
fn token_validation() {
    assert!(validate_token(&Ok("{\"Identity\":{}}".to_string())));
    assert!(!validate_token(&Ok("{\"httpStatus\":401}".to_string())));
    assert!(!validate_token(&Err("HTTP 401".to_string())));
    assert!(validate_token(&Err("timeout".to_string())));
}

#[test]
fn map_name_is_last_segment() {
    assert_eq!(extract_map_name("/Game/Maps/Ascent/Ascent"), "Ascent");
    assert_eq!(extract_map_name("Plain"), "Plain");
}

#[test]
fn health_check_refreshes_expired_tokens() {
    let mut s = connected();
    let (st, a) = health_check(&mut s, HealthStage::Start, false, 700_000);
    assert!(matches!(a, HealthAction::CheckClient));
    let (st, a) = health_check(&mut s, st, true, 700_000);
    assert!(matches!(a, HealthAction::Refresh));
    let (st, a) = health_check(&mut s, st, true, 700_000);
    assert!(matches!(a, HealthAction::Validate));
    assert_eq!(s.last_token_check, Some(700_000));
    let (_, a) = health_check(&mut s, st, true, 700_000);
    assert!(matches!(a, HealthAction::Report(Some(_))));
}

#[test]
fn health_check_dead_client_disconnects() {
    let mut s = connected();
    let (_, a) = health_check(&mut s, HealthStage::CheckingClient, false, 1);
    assert!(matches!(a, HealthAction::Report(None)));
    assert!(!s.connected);
}

#[test]
fn emitter_queues_events() {
    let mut e = LogEmitter::new();
    emit_log(&mut e, "warn", "a");
    log_info(&mut e, "b");
    log_error(&mut e, "c");
    let got: Vec<(String, String)> = e.events.iter().map(|x| (x.log_type.clone(), x.message.clone())).collect();
    assert_eq!(got, vec![("warn".to_string(), "a".to_string()), ("info".to_string(), "b".to_string()), ("error".to_string(), "c".to_string())]);
}

#[test]
fn local_auth_is_basic_base64() {
    assert_eq!(presence_client::riot::local_auth_header("pw"), "Basic cmlvdDpwdw==");
}

#[test]
fn tokens_parsed() {
    let t = presence_client::riot::parse_tokens(r#"{"accessToken":"a","token":"e","subject":"s"}"#).unwrap();
    assert_eq!((t.access_token.as_str(), t.entitlements.as_str(), t.puuid.as_str()), ("a", "e", "s"));
    assert!(presence_client::riot::parse_tokens(r#"{"accessToken":"a","token":"e"}"#).is_err());
    assert!(presence_client::riot::parse_tokens("nope").is_err());
}

#[test]
fn party_id_read() {
    assert_eq!(party_id_from(r#"{"CurrentPartyID":"p-1"}"#, "No party ID").unwrap(), "p-1");
    assert_eq!(party_id_from(r#"{"CurrentPartyID":""}"#, "No party ID").unwrap_err(), "No party ID");
    assert!(party_id_from("x", "No party ID").is_err());
}

#[test]
fn custom_map_and_mode_paths() {
    assert_eq!(custom_map_path("Ascent"), "/Game/Maps/Ascent/Ascent");
    assert_eq!(custom_map_path("HURM_Alley"), "/Game/Maps/HURM/HURM_Alley/HURM_Alley");
    assert_eq!(custom_map_path("Skirmish_B"), "/Game/Maps/Duel/Duel_2/Skirmish_B");
    assert_eq!(custom_map_path("/Game/Maps/X/X"), "/Game/Maps/X/X");
    assert_eq!(custom_mode_path("BombGameMode"), "/Game/GameModes/Bomb/BombGameMode.BombGameMode_C");
    assert_eq!(custom_mode_path("Foo_GameMode"), "/Game/GameModes/Foo/Foo_GameMode.Foo_GameMode_C");
    assert_eq!(remove_all("aXbXc", "X"), "abc");
}

#[test]
fn connect_answers_read() {
    assert_eq!(account_names(r#"{"acct":{"game_name":"Neo","tag_line":"EUW"}}"#), ("Neo".to_string(), "EUW".to_string()));
    assert_eq!(account_names(r#"{"acct":{"game_name":""}}"#), ("Unknown".to_string(), "0000".to_string()));
    assert_eq!(client_version_from(" {\"data\":{\"riotClientVersion\":\"release-09\"}}\n\0\0"), "release-09");
    assert_eq!(client_version_from("oops"), "unknown");
    assert_eq!(card_id_from_loadout(r#"{"Identity":{"PlayerCardID":"c1"}}"#), Some("c1".to_string()));
    assert_eq!(player_card_url("c1"), "https://media.valorant-api.com/playercards/c1/smallart.png");
}

#[test]
fn game_answers_read() {
    assert_eq!(current_match_id(r#"{"MatchID":"m-9"}"#), Some("m-9".to_string()));
    assert_eq!(current_match_id(r#"{"MatchID":""}"#), None);
    assert_eq!(owned_agent_ids(r#"{"Entitlements":[{"ItemID":"ABC-d"},{"x":1}]}"#).unwrap(), vec!["abc-d".to_string()]);
    assert!(owned_agent_ids("{}").is_err());
    assert_eq!(player_mmr(r#"{"LatestCompetitiveUpdate":{"TierAfterUpdate":21,"RankedRatingAfterUpdate":40}}"#).unwrap(), (21, 40));
    assert_eq!(player_mmr("{}").unwrap(), (0, 0));
    assert_eq!(
        resolved_names(r#"[{"Subject":"s","GameName":"G","TagLine":"T"},{"Subject":"t"}]"#).unwrap(),
        vec![("s".to_string(), "G".to_string(), "T".to_string()), ("t".to_string(), String::new(), String::new())]
    );
}
