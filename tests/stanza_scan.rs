use base64::Engine;
use presence_client::stanza::{
    extract_jid, extract_keystone_ts, extract_puuid_from_presence, extract_real_valorant_payload,
    extract_show, extract_valorant_b64, iterate_stanzas,
};

fn b64(s: &str) -> String {
    base64::engine::general_purpose::STANDARD.encode(s.as_bytes())
}

#[test]
fn sender_id_from_attribute() {
    assert_eq!(extract_puuid_from_presence(r#"<presence from="abc123@region.pvp.net/res">"#), "abc123");
}

#[test]
fn sender_id_missing_is_empty() {
    assert_eq!(extract_puuid_from_presence("<presence to=\"x@y\"></presence>"), "");
}

#[test]
fn unavailable_overrides_show() {
    let st = r#"<presence from="a@b" type="unavailable"><show>chat</show></presence>"#;
    assert_eq!(extract_show(st), "offline");
}

#[test]
fn show_element_and_default() {
    assert_eq!(extract_show("<presence><show>away</show></presence>"), "away");
    assert_eq!(extract_show("<presence></presence>"), "online");
}

#[test]
fn bound_identity_from_jid() {
    let resp = "<iq type=\"result\"><bind><jid>me@eu1.pvp.net/RC-1</jid></bind></iq>";
    assert_eq!(extract_jid(resp), "me@eu1.pvp.net/RC-1");
    assert_eq!(extract_jid("<iq/>"), "");
}

#[test]
fn two_stanzas_in_order() {
    let a = r#"<presence from="alice@x"><show>chat</show></presence>"#;
    let b = r#"<presence from="bob@x"><show>away</show></presence>"#;
    let buf = format!("{}{}", a, b);
    assert_eq!(iterate_stanzas(&buf), vec![a.to_string(), b.to_string()]);
}

#[test]
fn unmatched_trailing_start_ends_scan() {
    let a = r#"<presence from="alice@x"></presence>"#;
    let buf = format!("{}<presence from=\"bob@x\"><show>", a);
    assert_eq!(iterate_stanzas(&buf), vec![a.to_string()]);
    assert!(iterate_stanzas("no stanzas here").is_empty());
}

#[test]
fn payload_decoded_from_base64() {
    let st = format!("<presence><valorant><p>{}</p></valorant></presence>", b64(r#"{"a":1}"#));
    let v = extract_valorant_b64(&st).unwrap();
    assert_eq!(v["a"].as_u64(), Some(1));
    assert!(extract_valorant_b64("<presence><valorant><p>!!</p></valorant></presence>").is_none());
    assert!(extract_valorant_b64("<presence><p>e30=</p></presence>").is_none());
}

#[test]
fn keystone_timestamp_parsed() {
    let st = "<presence><keystone><st>chat</st><s.t>1700000000123</s.t></keystone></presence>";
    assert_eq!(extract_keystone_ts(st), 1700000000123);
    assert_eq!(extract_keystone_ts("<presence><keystone><s.t>x</s.t></keystone></presence>"), 0);
    assert_eq!(extract_keystone_ts("<presence></presence>"), 0);
}

#[test]
fn self_presence_captured() {
    let other = format!(
        "<presence from=\"peer@x/r\"><games><keystone><s.t>1</s.t></keystone><valorant><p>{}</p></valorant></games></presence>",
        b64(r#"{"who":"peer"}"#)
    );
    let own = format!(
        "<presence from=\"me@x/r\"><games><keystone><s.t>42</s.t></keystone><valorant><p>{}</p></valorant></games></presence>",
        b64(r#"{"who":"me"}"#)
    );
    let buf = format!("{}{}", other, own);
    let (v, ts) = extract_real_valorant_payload(&buf, "me").unwrap();
    assert_eq!(v["who"].as_str(), Some("me"));
    assert_eq!(ts, 42);
    assert!(extract_real_valorant_payload(&buf, "").is_none());
    assert!(extract_real_valorant_payload(&buf, "nobody").is_none());
}

#[test]
fn capture_ignores_stanza_closing_before_marker() {
    let peer = format!(
        "<presence from=\"peer@x/r\"><games><keystone><s.t>1</s.t></keystone><valorant><p>{}</p></valorant></games></presence>",
        b64(r#"{"who":"peer"}"#)
    );
    let buf = format!("{}<message to=\"me@x/r\"/>", peer);
    assert!(extract_real_valorant_payload(&buf, "me").is_none());
    let own = format!(
        "<presence from=\"me@x/r\"><games><keystone><s.t>7</s.t></keystone><valorant><p>{}</p></valorant></games></presence>",
        b64(r#"{"who":"me"}"#)
    );
    let (v, ts) = extract_real_valorant_payload(&format!("{}{}", buf, own), "me").unwrap();
    assert_eq!(v["who"].as_str(), Some("me"));
    assert_eq!(ts, 7);
}
