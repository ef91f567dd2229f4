use base64::Engine;
use presence_client::friends::{friend_rows, sort_friend_rows};

fn private(json: &str) -> String {
    base64::engine::general_purpose::STANDARD.encode(json.as_bytes())
}

#[test]
fn rows_merge_presences() {
    let friends = r#"{"friends":[
        {"puuid":"a","game_name":"zed","game_tag":"1","pid":"a@valorant.eu","note":"n"},
        {"puuid":"b","game_name":"","game_tag":"2"},
        {"puuid":"c","game_name":"Amy","game_tag":"3","pid":"c@league.na"},
        {"puuid":"d","game_name":"bob","game_tag":"4"}]}"#;
    let presences = format!(
        r#"{{"presences":[
        {{"puuid":"a","state":"chat","product":"valorant","private":"{}"}},
        {{"puuid":"a","state":"away","product":"keystone"}},
        {{"puuid":"c","state":"mobile","product":""}}]}}"#,
        private(r#"{"playerCardId":"card9","accountLevel":42}"#)
    );
    let rows = friend_rows(friends, Some(&presences)).unwrap();
    assert_eq!(rows.len(), 3);
    assert_eq!(rows[0].status, "chat");
    assert_eq!(rows[0].product, "valorant");
    assert_eq!(rows[0].player_card_url, "https://media.valorant-api.com/playercards/card9/smallart.png");
    assert_eq!(rows[0].account_level, 42);
    assert_eq!(rows[0].note, "n");
    assert_eq!(rows[1].game_name, "Amy");
    assert_eq!(rows[1].status, "offline");
    assert_eq!(rows[1].product, "league");
    assert_eq!(rows[2].status, "offline");
    assert_eq!(rows[2].product, "");
    assert!(friend_rows("nope", None).is_err());
}

#[test]
fn rows_sorted_online_first_then_name() {
    let friends = r#"{"friends":[
        {"puuid":"1","game_name":"zed"},{"puuid":"2","game_name":"Bob"},
        {"puuid":"3","game_name":"amy"},{"puuid":"4","game_name":"Carl"}]}"#;
    let presences = r#"{"presences":[{"puuid":"1","state":"chat"},{"puuid":"4","state":"dnd"}]}"#;
    let rows = sort_friend_rows(friend_rows(friends, Some(presences)).unwrap());
    let names: Vec<&str> = rows.iter().map(|r| r.game_name.as_str()).collect();
    assert_eq!(names, vec!["Carl", "zed", "amy", "Bob"]);
}
