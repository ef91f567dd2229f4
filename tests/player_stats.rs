use presence_client::stats::{history_entries, history_path, home_stats, match_row};

#[test]
fn home_summary_totals() {
    let mmr = r#"{"LatestCompetitiveUpdate":{"TierAfterUpdate":14,"RankedRatingAfterUpdate":55},
        "QueueSkills":{"competitive":{"SeasonalInfoBySeasonID":{
            "s1":{"CompetitiveTier":12,"NumberOfWinsWithPlacements":10,"NumberOfGames":18},
            "s2":{"CompetitiveTier":17,"NumberOfWinsWithPlacements":5,"NumberOfGames":7}}}}}"#;
    let h = home_stats(mmr, Some(r#"{"Identity":{"PlayerCardID":"card"}}"#), Some(r#"{"Progress":{"Level":88}}"#)).unwrap();
    assert_eq!((h.current_tier, h.current_rr, h.peak_tier), (14, 55, 17));
    assert_eq!((h.wins, h.total_games, h.losses), (15, 25, 10));
    assert_eq!(h.level, 88);
    assert_eq!(h.card_id, "card");
    let empty = home_stats("{}", None, None).unwrap();
    assert_eq!((empty.peak_tier, empty.wins, empty.losses, empty.level), (0, 0, 0, 0));
    assert!(home_stats("nope", None, None).is_err());
}

#[test]
fn totals_out_of_range() {
    let mmr = format!(
        r#"{{"QueueSkills":{{"competitive":{{"SeasonalInfoBySeasonID":{{"a":{{"NumberOfGames":{}}},"b":{{"NumberOfGames":1}}}}}}}}}}"#,
        u64::MAX
    );
    assert!(home_stats(&mmr, None, None).is_err());
}

#[test]
fn history_request_and_entries() {
    assert_eq!(
        history_path("me", 2, 10).unwrap(),
        "/match-history/v1/history/me?startIndex=20&endIndex=30&queue=competitive"
    );
    assert!(history_path("me", u64::MAX, 2).is_none());
    let (total, paths) = history_entries(r#"{"Total":3,"History":[{"MatchID":"a"},{"x":1},{"MatchID":"b"}]}"#).unwrap();
    assert_eq!(total, 3);
    assert_eq!(paths, vec!["/match-details/v1/matches/a".to_string(), "/match-details/v1/matches/b".to_string()]);
}

#[test]
fn match_row_from_details() {
    let detail: serde_json::Value = serde_json::from_str(
        r#"{"matchInfo":{"mapId":"/Game/Maps/Ascent/Ascent"},
            "players":[{"subject":"other","teamId":"Red"},{"subject":"me","teamId":"Blue","characterId":"agent-1","stats":{"kills":20,"deaths":11,"assists":4}}],
            "teams":[{"teamId":"Red","roundsWon":9,"won":false},{"teamId":"Blue","roundsWon":13,"won":true}]}"#,
    )
    .unwrap();
    let m = match_row(&detail, "me").unwrap();
    assert_eq!(m.map, "Ascent");
    assert!(m.won);
    assert_eq!((m.rounds_won, m.rounds_lost), (13, 9));
    assert_eq!((m.kills, m.deaths, m.assists), (20, 11, 4));
    assert_eq!(m.agent, "agent-1");
    assert!(match_row(&detail, "nobody").is_none());
}
