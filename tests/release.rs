use presence_client::update::{check_release, newer_release, parse_version, release_version};

#[test]
fn version_parts_skip_non_numbers() {
    assert_eq!(parse_version("1.2.10"), vec![1, 2, 10]);
    assert_eq!(parse_version("1.x.3"), vec![1, 3]);
    assert_eq!(parse_version(""), Vec::<u32>::new());
}

#[test]
fn newer_compares_part_by_part() {
    assert!(newer_release("1.10.0", "1.9.9"));
    assert!(newer_release("1.2.0.1", "1.2.0"));
    assert!(!newer_release("1.2.0", "1.2.0"));
    assert!(!newer_release("0.9", "1.0"));
    assert!(!newer_release("", "1.0"));
}

#[test]
fn leading_v_dropped() {
    assert_eq!(release_version("vv2.0"), "2.0");
    assert_eq!(release_version("2.0"), "2.0");
}

#[test]
fn release_answer_read() {
    let body = r#"{"tag_name":"v9.0.0","html_url":"https://r","assets":[{"name":"app.zip","browser_download_url":"u0"},{"name":"app-setup.exe","browser_download_url":"u1"}]}"#;
    let u = check_release(body, "1.0.0").unwrap();
    assert!(u.update);
    assert_eq!(u.latest, "9.0.0");
    assert_eq!(u.asset_name, "app-setup.exe");
    assert_eq!(u.download_url, "u1");
    assert_eq!(u.release_url, "https://r");
    let same = check_release(r#"{"tag_name":"1.0.0"}"#, "1.0.0").unwrap();
    assert!(!same.update);
    assert!(check_release("<html>", "1.0.0").is_err());
}
