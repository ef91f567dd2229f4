use base64::Engine;
use presence_client::config::{decode_affinity, fetch_chat_config, trim_text};
use presence_client::error::{Field, XmppError};

fn token(payload: &str) -> String {
    format!("hdr.{}.sig", base64::engine::general_purpose::URL_SAFE_NO_PAD.encode(payload.as_bytes()))
}

#[test]
fn affinity_from_token() {
    assert_eq!(decode_affinity(&format!("  {}\n", token(r#"{"affinity":"eu1"}"#))).unwrap(), "eu1");
}

#[test]
fn affinity_padded_standard() {
    let t = format!("a.{}", base64::engine::general_purpose::STANDARD.encode(br#"{"affinity":"ap>?>"}"#));
    assert!(t.ends_with('='));
    assert_eq!(decode_affinity(&t).unwrap(), "ap>?>");
}

#[test]
fn affinity_standard_unpadded() {
    let t = format!("a.{}.b", base64::engine::general_purpose::STANDARD_NO_PAD.encode(br#"{"affinity":"a??~"}"#));
    assert!(t.contains('/'));
    assert_eq!(decode_affinity(&t).unwrap(), "a??~");
}

#[test]
fn affinity_errors() {
    assert!(matches!(decode_affinity("nodots"), Err(XmppError::BadToken)));
    assert!(matches!(decode_affinity("a.!!!.c"), Err(XmppError::BadEncoding)));
    assert!(matches!(decode_affinity(&token("not json")), Err(XmppError::BadJson)));
    assert!(matches!(decode_affinity(&token(r#"{"x":1}"#)), Err(XmppError::MissingField(Field::Affinity))));
}

#[test]
fn chat_config_lookup() {
    let cfg = r#"{"chat.affinities":{"eu1":"eu1.chat.example"},"chat.affinity_domains":{"eu1":"eu1"}}"#;
    let (h, d) = fetch_chat_config(cfg, "eu1").unwrap();
    assert_eq!(h, "eu1.chat.example");
    assert_eq!(d, "eu1");
    assert!(matches!(fetch_chat_config(cfg, "na1"), Err(XmppError::MissingField(Field::ChatHost))));
    let half = r#"{"chat.affinities":{"eu1":"h"}}"#;
    assert!(matches!(fetch_chat_config(half, "eu1"), Err(XmppError::MissingField(Field::ChatDomain))));
    assert!(matches!(fetch_chat_config("{", "eu1"), Err(XmppError::BadJson)));
}

#[test]
fn trim_strips_whitespace() {
    assert_eq!(trim_text(" \t a b \u{3000}"), "a b");
    assert_eq!(trim_text("   "), "");
}
