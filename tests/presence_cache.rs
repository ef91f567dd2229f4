use base64::Engine;
use presence_client::presence::{update_friends_from_xml, FriendPresence};

fn stanza(id: &str, show: &str, payload: Option<&str>) -> String {
    let p = match payload {
        Some(j) => format!(
            "<games><valorant><p>{}</p></valorant></games>",
            base64::engine::general_purpose::STANDARD.encode(j.as_bytes())
        ),
        None => String::new(),
    };
    format!("<presence from=\"{}@eu.pvp.net/r\">{}<show>{}</show></presence>", id, p, show)
}

#[test]
fn same_buffer_twice_keeps_one_entry() {
    let mut friends: Vec<FriendPresence> = Vec::new();
    let buf = stanza("peer0001xyz", "chat", None);
    update_friends_from_xml(&buf, "me", &mut friends, 1000);
    update_friends_from_xml(&buf, "me", &mut friends, 2000);
    assert_eq!(friends.len(), 1);
    assert_eq!(friends[0].puuid, "peer0001xyz");
    assert_eq!(friends[0].last_updated, 2000);
}

#[test]
fn payload_sticky_without_payload() {
    let mut friends: Vec<FriendPresence> = Vec::new();
    update_friends_from_xml(&stanza("peer", "chat", Some(r#"{"rank":7}"#)), "me", &mut friends, 1);
    update_friends_from_xml(&stanza("peer", "away", None), "me", &mut friends, 2);
    assert_eq!(friends.len(), 1);
    assert_eq!(friends[0].show, "away");
    assert_eq!(friends[0].valorant_data.as_ref().unwrap()["rank"].as_u64(), Some(7));
}

#[test]
fn own_and_anonymous_stanzas_skipped() {
    let mut friends: Vec<FriendPresence> = Vec::new();
    let buf = format!("{}<presence><show>chat</show></presence>", stanza("me", "chat", None));
    let notes = update_friends_from_xml(&buf, "me", &mut friends, 5);
    assert!(friends.is_empty());
    assert!(notes.is_empty());
}

#[test]
fn update_notes_per_stanza_and_summary() {
    let mut friends: Vec<FriendPresence> = Vec::new();
    let buf = format!("{}{}", stanza("abcdefghijk", "chat", Some("{}")), stanza("bob", "dnd", None));
    let notes = update_friends_from_xml(&buf, "me", &mut friends, 5);
    assert_eq!(
        notes,
        vec![
            "abcdefgh.. show=chat val_data=true".to_string(),
            "bob.. show=dnd val_data=false".to_string(),
            "Parsed 2 friend stanzas, total tracked: 2".to_string(),
        ]
    );
}

#[test]
fn trailing_start_tag_changes_nothing() {
    let body = format!("{}{}{}", stanza("p-one", "chat", None), stanza("p-two", "away", None), stanza("p-three", "dnd", None));
    let mut with_tail: Vec<FriendPresence> = Vec::new();
    let notes_tail = update_friends_from_xml(&format!("{}<presence from=\"q@d\">", body), "me", &mut with_tail, 1);
    let mut plain: Vec<FriendPresence> = Vec::new();
    let notes_plain = update_friends_from_xml(&body, "me", &mut plain, 1);
    assert_eq!(notes_tail, notes_plain);
    assert_eq!(with_tail.len(), 3);
    assert!(with_tail.iter().all(|f| f.puuid != "q"));
    assert_eq!(notes_tail[3], "Parsed 3 friend stanzas, total tracked: 3");
}
