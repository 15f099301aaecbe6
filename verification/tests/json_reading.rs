use project_bootstrap::license::license_body;
use project_bootstrap::license::license_entries;

#[test]
fn license_list_yields_key_and_spdx_pairs() {
    let text = r#"[
        {"key": "mit", "spdx_id": "MIT", "name": "MIT License"},
        {"key": "apache-2.0", "spdx_id": "Apache-2.0"}
    ]"#;
    let entries = license_entries(text).expect("a well-formed list");
    assert_eq!(
        entries,
        vec![
            ("mit".to_string(), "MIT".to_string()),
            ("apache-2.0".to_string(), "Apache-2.0".to_string()),
        ]
    );
}

#[test]
fn empty_license_list_yields_no_pairs() {
    let entries = license_entries("[]").expect("a well-formed list");
    assert!(entries.is_empty());
}

#[test]
fn malformed_listing_is_rejected() {
    assert!(license_entries("not json").is_none());
    assert!(license_entries("{\"key\": \"mit\"}").is_none());
    assert!(license_entries("[{\"spdx_id\": \"MIT\"}]").is_none());
    assert!(license_entries("[{\"key\": \"mit\"}]").is_none());
    assert!(license_entries("[{\"key\": 3, \"spdx_id\": \"MIT\"}]").is_none());
}

#[test]
fn license_record_yields_its_body() {
    let text = r#"{"key": "mit", "body": "MIT License\n\nPermission is hereby granted"}"#;
    assert_eq!(
        license_body(text).as_deref(),
        Some("MIT License\n\nPermission is hereby granted")
    );
}

#[test]
fn record_without_a_text_body_is_rejected() {
    assert!(license_body("{\"key\": \"mit\"}").is_none());
    assert!(license_body("{\"body\": 7}").is_none());
    assert!(license_body("[1, 2]").is_none());
    assert!(license_body("nonsense").is_none());
}
