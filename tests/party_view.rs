use presence_client::social::{member_subjects, party_members, party_settings, read_members};

const PARTY: &str = r#"{"State":"CUSTOM_GAME_SETUP","Accessibility":"OPEN","InviteCode":"",
  "MatchmakingData":{"QueueID":"unrated"},
  "CustomGameData":{"Settings":{"Map":"/Game/Maps/Ascent/Ascent","Mode":"Bomb","GamePod":"pod-1",
     "GameRules":{"AllowGameModifiers":"true","PlayOutAllRounds":"false"}}},
  "Members":[{"Subject":"me","CompetitiveTier":12,"IsOwner":true,"IsReady":true,
     "PlayerIdentity":{"PlayerCardID":"card-1","AccountLevel":120,"Incognito":false,"HideAccountLevel":true}},
   {"Subject":"friend","PlayerIdentity":{"PlayerCardID":""}},{"Other":1}]}"#;

#[test]
fn members_with_names() {
    let members = party_members(PARTY).unwrap();
    assert_eq!(member_subjects(&members), vec!["me".to_string(), "friend".to_string()]);
    let names = r#"[{"Subject":"me","GameName":"Me","TagLine":"EU1"},{"Subject":"friend","GameName":"Pal"}]"#;
    let rows = read_members(&members, Some(names));
    assert_eq!(rows.len(), 3);
    assert_eq!((rows[0].game_name.as_str(), rows[0].game_tag.as_str()), ("Me", "EU1"));
    assert_eq!(rows[0].player_card_url, "https://media.valorant-api.com/playercards/card-1/smallart.png");
    assert_eq!((rows[0].account_level, rows[0].competitive_tier), (120, 12));
    assert!(rows[0].is_owner && rows[0].is_ready && rows[0].hide_account_level && !rows[0].incognito);
    assert_eq!((rows[1].game_name.as_str(), rows[1].game_tag.as_str()), ("Unknown", "0000"));
    assert_eq!(rows[1].player_card_url, "");
    assert_eq!(rows[2].puuid, "");
    assert!(party_members(r#"{"Members":3}"#).is_err());
}

#[test]
fn settings_read() {
    let p = party_settings(PARTY).unwrap();
    assert_eq!(p.state, "CUSTOM_GAME_SETUP");
    assert_eq!(p.queue_id, "unrated");
    assert_eq!(p.custom_pod, "pod-1");
    assert!(p.allow_cheats);
    assert!(!p.play_out_all_rounds);
    assert!(p.overtime_win_by_two);
    let bare = party_settings("{}").unwrap();
    assert!(!bare.allow_cheats && bare.overtime_win_by_two);
    assert_eq!(bare.custom_map, "");
}
