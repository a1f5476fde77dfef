use tinto::config::{Config, ConfigError};
use tinto::ui::toggleable_item;

fn s(v: &str) -> Option<String> {
    Some(v.to_string())
}

#[test]
fn both_arguments_win_without_a_file() {
    let c = Config::try_init(s("10.0.0.2"), s("key-a"), false, None, None).unwrap();
    assert_eq!(c.bridge_addr, "10.0.0.2");
    assert_eq!(c.app_key, "key-a");
}

#[test]
fn arguments_override_file_values() {
    let c = Config::try_init(s("10.0.0.2"), s("key-a"), true, s("10.0.0.9"), s("key-f")).unwrap();
    assert_eq!(c.bridge_addr, "10.0.0.2");
    assert_eq!(c.app_key, "key-a");
}

#[test]
fn file_fills_what_arguments_leave_open() {
    let c = Config::try_init(None, s("key-a"), true, s("10.0.0.9"), None).unwrap();
    assert_eq!(c.bridge_addr, "10.0.0.9");
    assert_eq!(c.app_key, "key-a");

    let c = Config::try_init(s("10.0.0.2"), None, true, None, s("key-f")).unwrap();
    assert_eq!(c.bridge_addr, "10.0.0.2");
    assert_eq!(c.app_key, "key-f");

    let c = Config::try_init(None, None, true, s("10.0.0.9"), s("key-f")).unwrap();
    assert_eq!(c.bridge_addr, "10.0.0.9");
    assert_eq!(c.app_key, "key-f");
}

#[test]
fn missing_file_without_full_arguments_is_fatal() {
    assert_eq!(
        Config::try_init(None, None, false, None, None),
        Err(ConfigError::MissingConfig)
    );
    assert_eq!(
        Config::try_init(s("10.0.0.2"), None, false, None, None),
        Err(ConfigError::MissingConfig)
    );
}

#[test]
fn file_without_address_is_fatal() {
    assert_eq!(
        Config::try_init(None, s("key-a"), true, None, s("key-f")),
        Err(ConfigError::MissingBridgeAddr)
    );
}

#[test]
fn file_without_key_is_fatal() {
    assert_eq!(
        Config::try_init(None, None, true, s("10.0.0.9"), None),
        Err(ConfigError::MissingAppKey)
    );
}

#[test]
fn toggleable_item_marks_active_entries() {
    assert_eq!(toggleable_item("Desk", true), "■ Desk");
    assert_eq!(toggleable_item("Desk", false), "  Desk");
    assert_eq!(toggleable_item("", true), "■ ");
}
