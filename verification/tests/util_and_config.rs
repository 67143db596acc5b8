use media_sync::config::{Config, ConfigError};
use media_sync::util::{parse_u64, u64_to_string};

#[test]
fn decimal_rendering_is_exact() {
    assert_eq!(u64_to_string(0), "0");
    assert_eq!(u64_to_string(7), "7");
    assert_eq!(u64_to_string(10), "10");
    assert_eq!(u64_to_string(1234567890), "1234567890");
    assert_eq!(u64_to_string(u64::MAX), "18446744073709551615");
}

#[test]
fn decimal_parsing_accepts_exactly_the_digit_strings() {
    assert_eq!(parse_u64("0"), Some(0));
    assert_eq!(parse_u64("42"), Some(42));
    assert_eq!(parse_u64("007"), Some(7));
    assert_eq!(parse_u64("18446744073709551615"), Some(u64::MAX));
    assert_eq!(parse_u64("18446744073709551616"), None);
    assert_eq!(parse_u64(""), None);
    assert_eq!(parse_u64("12a"), None);
    assert_eq!(parse_u64("-1"), None);
    assert_eq!(parse_u64(" 1"), None);
}

#[test]
fn rendering_then_parsing_round_trips() {
    for n in [0u64, 1, 9, 10, 99, 100, 65535, u64::MAX] {
        assert_eq!(parse_u64(&u64_to_string(n)), Some(n));
    }
}

fn full_pairs() -> (
    Option<String>,
    Option<String>,
    Option<String>,
    Option<String>,
    Option<String>,
    Option<String>,
    Option<String>,
    Option<String>,
    Option<String>,
) {
    (
        Some("/store".to_string()),
        Some("/tmp/stage".to_string()),
        Some("true".to_string()),
        Some("id1".to_string()),
        Some("pc1".to_string()),
        Some("http://localhost:3000/api/1".to_string()),
        Some("psk".to_string()),
        Some("false".to_string()),
        Some("2048".to_string()),
    )
}

fn build(
    p: (
        Option<String>,
        Option<String>,
        Option<String>,
        Option<String>,
        Option<String>,
        Option<String>,
        Option<String>,
        Option<String>,
        Option<String>,
    ),
) -> Result<Config, ConfigError> {
    Config::from_pairs(p.0, p.1, p.2, p.3, p.4, p.5, p.6, p.7, p.8)
}

#[test]
fn config_assembles_from_pairs() {
    let c = build(full_pairs()).unwrap();
    assert_eq!(c.store_path, "/store");
    assert_eq!(c.temp_path, "/tmp/stage");
    assert!(c.authenticated);
    assert_eq!(c.local_id.as_deref(), Some("id1"));
    assert_eq!(c.local_passcode.as_deref(), Some("pc1"));
    assert_eq!(c.webserver_address, "http://localhost:3000/api/1");
    assert_eq!(c.preshared_key, "psk");
    assert!(!c.initial_scan_complete);
    assert_eq!(c.max_download_speed, 2048);
}

#[test]
fn config_defaults_apply_when_optional_keys_are_absent() {
    let mut p = full_pairs();
    p.2 = None;
    p.3 = None;
    p.4 = None;
    p.7 = None;
    p.8 = None;
    let c = build(p).unwrap();
    assert!(!c.authenticated);
    assert_eq!(c.local_id, None);
    assert_eq!(c.local_passcode, None);
    assert!(!c.initial_scan_complete);
    assert_eq!(c.max_download_speed, 0);
}

#[test]
fn config_flag_values_other_than_true_read_as_false() {
    let mut p = full_pairs();
    p.2 = Some("TRUE".to_string());
    p.7 = Some("yes".to_string());
    let c = build(p).unwrap();
    assert!(!c.authenticated);
    assert!(!c.initial_scan_complete);
}

#[test]
fn config_requires_each_mandatory_key() {
    let mut p = full_pairs();
    p.0 = None;
    assert!(matches!(build(p), Err(ConfigError::MissingStorePath)));
    let mut p = full_pairs();
    p.1 = None;
    assert!(matches!(build(p), Err(ConfigError::MissingTempPath)));
    let mut p = full_pairs();
    p.5 = None;
    assert!(matches!(build(p), Err(ConfigError::MissingWebserverAddress)));
    let mut p = full_pairs();
    p.6 = None;
    assert!(matches!(build(p), Err(ConfigError::MissingPresharedKey)));
    let mut p = full_pairs();
    p.8 = Some("fast".to_string());
    assert!(matches!(build(p), Err(ConfigError::InvalidMaxDownloadSpeed)));
}

#[test]
fn config_round_trips_through_its_pairs() {
    let c = build(full_pairs()).unwrap();
    let pairs = c.to_pairs();
    let keys: Vec<&str> = pairs.iter().map(|(k, _)| k.as_str()).collect();
    assert_eq!(
        keys,
        vec![
            "store_path",
            "authenticated",
            "webserver_address",
            "preshared_key",
            "initial_scan_complete",
            "local_id",
            "local_passcode",
        ]
    );
    let get = |key: &str| pairs.iter().find(|(k, _)| k == key).map(|(_, v)| v.clone());
    assert_eq!(get("store_path").as_deref(), Some("/store"));
    assert_eq!(get("authenticated").as_deref(), Some("true"));
    assert_eq!(get("initial_scan_complete").as_deref(), Some("false"));
    assert_eq!(get("local_id").as_deref(), Some("id1"));
    assert_eq!(get("local_passcode").as_deref(), Some("pc1"));
}

#[test]
fn unregistered_config_writes_no_credential_pairs() {
    let mut p = full_pairs();
    p.3 = None;
    p.4 = None;
    let c = build(p).unwrap();
    let pairs = c.to_pairs();
    assert_eq!(pairs.len(), 5);
    assert!(pairs.iter().all(|(k, _)| k != "local_id" && k != "local_passcode"));
}

#[test]
fn config_state_transitions() {
    let mut c = build(full_pairs()).unwrap();
    assert!(!c.initial_scan_complete());
    c.set_initial_scan_complete();
    assert!(c.initial_scan_complete());

    let mut p = full_pairs();
    p.2 = None;
    p.3 = None;
    p.4 = None;
    let mut fresh = build(p).unwrap();
    assert!(fresh.needs_registration());
    assert!(fresh.needs_authentication());
    fresh.apply_registration("id9".to_string(), "pc9".to_string());
    assert!(!fresh.needs_registration());
    assert_eq!(fresh.local_id.as_deref(), Some("id9"));
    fresh.mark_authenticated();
    assert!(!fresh.needs_authentication());
}

#[test]
fn endpoint_locators_are_built_from_the_service_address() {
    let c = build(full_pairs()).unwrap();
    assert_eq!(c.register_url(), "http://localhost:3000/api/1/register");
    assert_eq!(c.auth_url_endpoint(), "http://localhost:3000/api/1/auth_url");
    assert_eq!(c.login_check_url(), "http://localhost:3000/api/1/is_logged_in");
    assert_eq!(
        c.media_items_url(true, 25),
        "http://localhost:3000/api/1/download?reload=true&max_count=25"
    );
    assert_eq!(
        c.media_items_url(false, 7),
        "http://localhost:3000/api/1/download?reload=false&max_count=7"
    );
}
