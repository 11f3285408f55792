use world_monitor::cache::{read_cache_entry, write_cache_entry};
use world_monitor::platform::OsFamily;
use world_monitor::secrets::{
    is_supported_secret_key, list_supported_secret_keys, validate_secret_key,
};

#[test]
fn allowlist_has_the_thirteen_keys_in_order() {
    let keys = list_supported_secret_keys();
    let got: Vec<&str> = keys.iter().map(|k| k.as_str()).collect();
    assert_eq!(
        got,
        vec![
            "GROQ_API_KEY",
            "OPENROUTER_API_KEY",
            "FRED_API_KEY",
            "EIA_API_KEY",
            "CLOUDFLARE_API_TOKEN",
            "ACLED_ACCESS_TOKEN",
            "WINGBITS_API_KEY",
            "WS_RELAY_URL",
            "VITE_OPENSKY_RELAY_URL",
            "OPENSKY_CLIENT_ID",
            "OPENSKY_CLIENT_SECRET",
            "AISSTREAM_API_KEY",
            "VITE_WS_RELAY_URL",
        ]
    );
}

#[test]
fn allowlisted_keys_are_admitted() {
    assert!(is_supported_secret_key("GROQ_API_KEY"));
    assert!(is_supported_secret_key("VITE_WS_RELAY_URL"));
    assert!(validate_secret_key("OPENSKY_CLIENT_ID").is_ok());
}

#[test]
fn other_keys_are_rejected_by_name() {
    assert!(!is_supported_secret_key("PATH"));
    assert!(!is_supported_secret_key(""));
    assert!(!is_supported_secret_key("groq_api_key"));
    let err = validate_secret_key("NOT_A_KEY").unwrap_err();
    assert_eq!(err, "Unsupported secret key: NOT_A_KEY");
}

#[test]
fn cache_write_then_read_round_trip() {
    let text = write_cache_entry(None, "theme", "{\"dark\": true}").expect("valid payload");
    let stored = read_cache_entry(Some(&text), "theme").expect("entry present");
    // The value comes back as its canonical (compact) rendering.
    assert_eq!(stored, "{\"dark\":true}");
    let value: serde_json::Value = serde_json::from_str(&stored).unwrap();
    assert_eq!(value["dark"], serde_json::Value::Bool(true));
}

#[test]
fn cache_read_of_absent_file_or_key_is_none() {
    assert!(read_cache_entry(None, "anything").is_none());
    let text = write_cache_entry(None, "a", "1").expect("valid payload");
    assert!(read_cache_entry(Some(&text), "b").is_none());
}

#[test]
fn cache_read_tolerates_garbage_files() {
    let garbage = "not json at all".to_string();
    assert!(read_cache_entry(Some(&garbage), "a").is_none());
    let non_object = "[1, 2, 3]".to_string();
    assert!(read_cache_entry(Some(&non_object), "a").is_none());
}

#[test]
fn cache_write_keeps_other_entries_and_their_values() {
    let first = write_cache_entry(None, "a", "1").expect("valid payload");
    let second = write_cache_entry(Some(&first), "b", "\"two\"").expect("valid payload");
    assert_eq!(read_cache_entry(Some(&second), "a").as_deref(), Some("1"));
    assert_eq!(read_cache_entry(Some(&second), "b").as_deref(), Some("\"two\""));
}

#[test]
fn cache_write_replaces_existing_value() {
    let first = write_cache_entry(None, "a", "1").expect("valid payload");
    let second = write_cache_entry(Some(&first), "a", "2").expect("valid payload");
    assert_eq!(read_cache_entry(Some(&second), "a").as_deref(), Some("2"));
}

#[test]
fn cache_rejects_invalid_payload() {
    let err = write_cache_entry(None, "a", "{broken").unwrap_err();
    assert!(err.starts_with("Invalid cache payload JSON: "));
}

#[test]
fn opener_commands_per_platform() {
    assert_eq!(OsFamily::MacOs.opener_command(), "open");
    assert_eq!(OsFamily::Windows.opener_command(), "explorer");
    assert_eq!(OsFamily::OtherUnix.opener_command(), "xdg-open");
    assert_eq!(OsFamily::Windows.runtime_binary_name(), "node.exe");
    assert_eq!(OsFamily::MacOs.runtime_binary_name(), "node");
}
