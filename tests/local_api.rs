use base64::Engine;
use presence_client::diagnostics::{chat_endpoints, local_presences};

#[test]
fn chat_endpoints_filtered() {
    let help = r#"{"/chat/v1/me":"GET","/lol-login":"x","/presence/v3":{"a":1},"/roster/x":true}"#;
    let (lines, total) = chat_endpoints(help).unwrap();
    assert_eq!(total, 4);
    assert_eq!(lines, vec![
        "/chat/v1/me: \"GET\"".to_string(),
        "/presence/v3: {\"a\":1}".to_string(),
        "/roster/x: true".to_string(),
    ]);
    assert!(chat_endpoints("not json").is_none());
    assert_eq!(chat_endpoints("[1]").unwrap().1, 0);
}

#[test]
fn local_presences_decoded() {
    let blob = base64::engine::general_purpose::STANDARD.encode(br#"{"isValid":true}"#);
    let raw = format!(r#"{{"presences":[{{"puuid":"me","private":"{}"}},{{"puuid":"you","private":""}}]}}"#, blob);
    let rows = local_presences(&raw, "me").unwrap();
    assert_eq!(rows.len(), 2);
    assert!(rows[0].is_own && !rows[1].is_own);
    assert_eq!(rows[0].private_decoded.as_ref().unwrap()["isValid"].as_bool(), Some(true));
    assert!(rows[1].private_decoded.is_none());
    assert!(local_presences("{}", "me").is_err());
}
