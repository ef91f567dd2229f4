use base64::Engine;
use presence_client::broadcast::{merge_overrides, overrides_from_json, FakePresence};
use presence_client::error::XmppError;
use presence_client::session::XmppState;
use presence_client::tabs::format_json_tabs;

fn connected_session() -> XmppState<()> {
    let mut s: XmppState<()> = XmppState::new();
    s.attach((), 1000);
    s
}

fn payload_of(xml: &str) -> serde_json::Value {
    let start = xml.find("<p>").unwrap() + 3;
    let end = xml.find("</p>").unwrap();
    let bytes = base64::engine::general_purpose::STANDARD.decode(&xml[start..end]).unwrap();
    serde_json::from_slice(&bytes).unwrap()
}

#[test]
fn broadcast_without_template_fails() {
    let s = connected_session();
    let r = s.xmpp_send_fake_presence("{}", 5000);
    assert!(matches!(r, Err(XmppError::NoTemplate)));
    assert!(s.logs.is_empty());
    assert!(s.connected);
}

#[test]
fn broadcast_when_disconnected_fails() {
    let mut s: XmppState<()> = XmppState::new();
    s.real_valorant_data = Some(serde_json::from_str("{}").unwrap());
    assert!(matches!(s.xmpp_send_fake_presence("{}", 5000), Err(XmppError::NoTemplate)));
}

#[test]
fn broadcast_rejects_bad_params() {
    let mut s = connected_session();
    s.real_valorant_data = Some(serde_json::from_str("{}").unwrap());
    assert!(matches!(s.xmpp_send_fake_presence("not json", 5000), Err(XmppError::BadJson)));
}

#[test]
fn broadcast_party_size_mirrored() {
    let template = r#"{"partyPresenceData":{"partyId":"abc","partySize":1},"isValid":true,"matchPresenceData":{"sessionLoopState":"MENUS"}}"#;
    let mut s = connected_session();
    s.real_valorant_data = Some(serde_json::from_str(template).unwrap());
    s.real_keystone_ts = Some(77);
    let p: FakePresence = s.xmpp_send_fake_presence(r#"{"partySize":3,"maxPartySize":5,"show":"dnd"}"#, 9000).unwrap();
    let v = payload_of(&p.xml);
    assert_eq!(v["partySize"].as_u64(), Some(3));
    assert_eq!(v["maxPartySize"].as_u64(), Some(5));
    assert_eq!(v["partyPresenceData"]["partySize"].as_u64(), Some(3));
    assert_eq!(v["partyPresenceData"]["maxPartySize"].as_u64(), Some(5));
    assert_eq!(v["partyPresenceData"]["partyId"].as_str(), Some("abc"));
    assert_eq!(v["isValid"].as_bool(), Some(true));
    assert_eq!(v["matchPresenceData"]["sessionLoopState"].as_str(), Some("MENUS"));
    assert!(p.xml.starts_with("<presence><games><keystone><st>chat</st><s.t>77</s.t>"));
    assert!(p.xml.contains("<st>dnd</st>"));
    assert!(p.xml.contains("<s.t>9000</s.t>"));
    assert!(p.xml.ends_with("<show>dnd</show><status/></presence>"));
    assert_eq!(p.summary, format!("[FAKE PRESENCE] show=dnd tier=null xml_len={}", p.xml.len()));
    assert!(v.get("matchPresenceData").is_some());
}

#[test]
fn queue_override_sets_flow() {
    let template: serde_json::Value = serde_json::from_str(r#"{"queueId":""}"#).unwrap();
    let o = overrides_from_json(r#"{"queueId":"competitive","sessionLoopState":"INGAME"}"#).unwrap();
    let v = merge_overrides(&template, &o);
    assert_eq!(v["queueId"].as_str(), Some("competitive"));
    assert_eq!(v["matchPresenceData"]["queueId"].as_str(), Some("competitive"));
    assert_eq!(v["matchPresenceData"]["provisioningFlow"].as_str(), Some("Matchmaking"));
    assert_eq!(v["matchPresenceData"]["sessionLoopState"].as_str(), Some("INGAME"));
    let o = overrides_from_json(r#"{"queueId":"newmap"}"#).unwrap();
    let v = merge_overrides(&template, &o);
    assert_eq!(v["matchPresenceData"]["provisioningFlow"].as_str(), Some("Invalid"));
}

#[test]
fn player_fields_only_when_object_present() {
    let template: serde_json::Value =
        serde_json::from_str(r#"{"playerPresenceData":{"competitiveTier":3,"playerCardId":"old"}}"#).unwrap();
    let o = overrides_from_json(r#"{"competitiveTier":24,"playerCardId":"","premierDivision":2}"#).unwrap();
    let v = merge_overrides(&template, &o);
    assert_eq!(v["playerPresenceData"]["competitiveTier"].as_u64(), Some(24));
    assert_eq!(v["playerPresenceData"]["playerCardId"].as_str(), Some("old"));
    assert!(v.get("premierPresenceData").is_none());
}

#[test]
fn tabs_replace_indentation() {
    assert_eq!(format_json_tabs("{\n  \"a\": {\n    \"b\": 1\n  }\n}"), "{\r\n\t\"a\": {\r\n\t\"b\": 1\r\n\t}\r\n}");
    assert_eq!(format_json_tabs("      x"), "\t\tx");
    assert_eq!(format_json_tabs(""), "");
    assert_eq!(format_json_tabs("a\r\nb\n"), "a\r\nb");
}

#[test]
fn untouched_template_gains_no_match_data() {
    let template: serde_json::Value = serde_json::from_str(r#"{"partyPresenceData":{"partySize":1},"x":[1,2]}"#).unwrap();
    let o = overrides_from_json(r#"{"partySize":3,"maxPartySize":5}"#).unwrap();
    let v = merge_overrides(&template, &o);
    assert!(v.get("matchPresenceData").is_none());
    assert_eq!(v["x"], template["x"]);
    assert_eq!(v["partyPresenceData"]["maxPartySize"].as_u64(), Some(5));
    let o = overrides_from_json(r#"{"sessionLoopState":"MENUS"}"#).unwrap();
    assert_eq!(merge_overrides(&template, &o)["matchPresenceData"]["sessionLoopState"].as_str(), Some("MENUS"));
}

#[test]
fn summary_reports_tier() {
    let mut s = connected_session();
    s.real_valorant_data = Some(serde_json::from_str(r#"{"playerPresenceData":{"competitiveTier":3}}"#).unwrap());
    let p = s.xmpp_send_fake_presence(r#"{"competitiveTier":21}"#, 9000).unwrap();
    assert!(p.summary.starts_with("[FAKE PRESENCE] show=chat tier=21 xml_len="));
    s.record_fake_presence(&p, 9001);
    assert_eq!(s.logs.len(), 2);
    assert_eq!(s.logs[1].data, p.xml);
}
