use presence_client::error::XmppError;
use presence_client::handshake::{Action, Handshake, Stage};
use presence_client::session::{ReadOutcome, XmppState};

fn data(s: &str) -> ReadOutcome {
    ReadOutcome::Data(s.to_string())
}

fn handshake() -> Handshake {
    Handshake::new("eu1", "ACCESS".to_string(), "PAS".to_string(), "ENT".to_string(), "me".to_string(), 12345)
}

#[test]
fn connect_fails_on_auth_failure() {
    let mut s: XmppState<()> = XmppState::new();
    let mut hs = handshake();
    let a = hs.start(&mut s, 1);
    match a {
        Action::WriteThenReadUntil { data, marker, timeout_secs } => {
            assert_eq!(data, "<?xml version=\"1.0\"?><stream:stream to=\"eu1.pvp.net\" version=\"1.0\" xmlns:stream=\"http://etherx.jabber.org/streams\">");
            assert_eq!(marker, "</stream:features>");
            assert_eq!(timeout_secs, 10);
        }
        _ => panic!("expected the preamble"),
    }
    let a = hs.step(&mut s, data("<stream:features/></stream:features>"), 2);
    match a {
        Action::WriteThenRead { data, timeout_ms } => {
            assert!(data.contains("<rso_token>ACCESS</rso_token><pas_token>PAS</pas_token>"));
            assert_eq!(timeout_ms, 10000);
        }
        _ => panic!("expected the auth stanza"),
    }
    let a = hs.step(&mut s, data("<failure xmlns=\"urn:ietf:params:xml:ns:xmpp-sasl\"><not-authorized/></failure>"), 3);
    assert!(matches!(a, Action::Abort(XmppError::AuthFailed(_))));
    assert_eq!(hs.stage, Stage::Failed);
    assert!(!s.connected);
    assert!(s.stream.is_none());
}

#[test]
fn full_handshake_connects() {
    let mut s: XmppState<()> = XmppState::new();
    let mut hs = handshake();
    hs.start(&mut s, 1);
    hs.step(&mut s, data("</stream:features>"), 2);
    hs.step(&mut s, data("<success/>"), 3);
    let a = hs.step(&mut s, data("</stream:features>"), 4);
    match a {
        Action::WriteThenReadUntil { data, .. } => assert!(data.contains("<resource>RC-12345</resource>")),
        _ => panic!("expected the bind request"),
    }
    hs.step(&mut s, data("<iq><bind><jid>me@eu1.pvp.net/RC-12345</jid></bind></iq>"), 5);
    assert_eq!(s.jid, "me@eu1.pvp.net/RC-12345");
    hs.step(&mut s, data("<iq type=\"result\"/></iq>"), 6);
    let a = hs.step(&mut s, data(""), 7);
    assert!(matches!(a, Action::WriteThenRead { timeout_ms: 1500, .. }));
    let a = hs.step(&mut s, data("<presence from=\"peer@x/r\"><show>chat</show></presence>"), 8);
    assert!(matches!(a, Action::Read { timeout_ms: 1500 }));
    let a = hs.step(&mut s, data(""), 9);
    assert!(matches!(a, Action::Finish));
    assert_eq!(hs.stage, Stage::Done);
    assert_eq!(s.friends.len(), 1);
    assert_eq!(s.puuid, "me");
    s.attach((), 10);
    assert!(s.connected);
    assert_eq!(s.xmpp_get_status(5010).uptime_secs, 5);
}

#[test]
fn bind_without_identity_fails() {
    let mut s: XmppState<()> = XmppState::new();
    let mut hs = handshake();
    hs.start(&mut s, 1);
    hs.step(&mut s, data("</stream:features>"), 2);
    hs.step(&mut s, data("<success/>"), 3);
    hs.step(&mut s, data("</stream:features>"), 4);
    let a = hs.step(&mut s, data("<iq type=\"error\"/></iq>"), 5);
    assert!(matches!(a, Action::Abort(XmppError::BindFailed)));
}

#[test]
fn closed_read_aborts() {
    let mut s: XmppState<()> = XmppState::new();
    let mut hs = handshake();
    hs.start(&mut s, 1);
    let a = hs.step(&mut s, ReadOutcome::Closed, 2);
    assert!(matches!(a, Action::Abort(XmppError::ConnectionClosed)));
}

#[test]
fn poll_closed_disconnects() {
    let mut s: XmppState<()> = XmppState::new();
    s.attach((), 1);
    let back = s.apply_poll_read(ReadOutcome::Closed, 2);
    assert!(back.is_some());
    assert!(!s.connected);
    assert!(s.stream.is_none());
    assert_eq!(s.logs.last().unwrap().data, "Connection closed by server");
}

#[test]
fn poll_data_updates_cache() {
    let mut s: XmppState<()> = XmppState::new();
    s.attach((), 1);
    s.apply_poll_read(data("<presence from=\"peer@x/r\"><show>away</show></presence>"), 2);
    assert_eq!(s.friends.len(), 1);
    assert_eq!(s.friends[0].show, "away");
    assert_eq!(s.logs[0].direction, "recv");
    s.apply_poll_read(ReadOutcome::Failed("read: reset".to_string()), 3);
    assert!(s.connected);
}

#[test]
fn disconnect_keeps_cache() {
    let mut s: XmppState<()> = XmppState::new();
    s.attach((), 1);
    s.apply_poll_read(data("<presence from=\"peer@x/r\"></presence>"), 2);
    let back = s.xmpp_disconnect(3);
    assert!(back.is_some());
    assert!(!s.connected);
    assert_eq!(s.friends.len(), 1);
    assert!(s.xmpp_disconnect(4).is_none());
    assert!(matches!(s.require_connected(), Err(XmppError::NotConnected)));
}

#[test]
fn names_filled_for_known_peers() {
    let mut s: XmppState<()> = XmppState::new();
    s.attach((), 1);
    s.apply_poll_read(data("<presence from=\"alice@x/r\"></presence><presence from=\"bob@x/r\"></presence>"), 2);
    assert_eq!(s.unresolved_friends(), vec!["alice".to_string(), "bob".to_string()]);
    s.apply_resolved_names(r#"[{"Subject":"bob","GameName":"Two","TagLine":"T2"},{"Subject":"zz","GameName":"Z","TagLine":"Z"}]"#);
    assert_eq!(s.friends[1].game_name, "Two");
    assert_eq!(s.friends[1].game_tag, "T2");
    assert_eq!(s.unresolved_friends(), vec!["alice".to_string()]);
    s.apply_resolved_names("not json");
    assert_eq!(s.friends.len(), 2);
}

#[test]
fn status_reads_template_fields() {
    let mut s: XmppState<()> = XmppState::new();
    s.real_valorant_data = Some(serde_json::from_str(r#"{"playerPresenceData":{"playerCardId":"card","playerTitleId":"title"},"premierPresenceData":{"division":3}}"#).unwrap());
    let st = s.xmpp_get_status(0);
    assert!(!st.connected);
    assert_eq!(st.uptime_secs, 0);
    assert_eq!(st.real_card_id, "card");
    assert_eq!(st.real_title_id, "title");
    assert_eq!(st.premier_data.unwrap()["division"].as_u64(), Some(3));
}
