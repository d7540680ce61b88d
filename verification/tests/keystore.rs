use hlas::keystore::{entry_outcome, lookup_outcome, store_outcome, KeyStoreError};
use hlas::keystore::{clear_key, get_key, key_update, persist_key, set_key, KeyUpdate, GROQ, OPENAI, SERVICE};

#[test]
fn account_names() {
    assert_eq!(SERVICE, "com.gedeon.hlas");
    assert_eq!(GROQ, "groq-api-key");
    assert_eq!(OPENAI, "openai-api-key");
}

#[test]
fn blank_key_field_clears() {
    assert!(matches!(key_update(""), KeyUpdate::Clear));
    assert!(matches!(key_update("  \t "), KeyUpdate::Clear));
}

#[test]
fn key_field_is_stored_trimmed() {
    match key_update("  gsk_123 \n") {
        KeyUpdate::Store(s) => assert_eq!(s, "gsk_123"),
        KeyUpdate::Clear => panic!("expected a store"),
    }
}

#[test]
fn clearing_never_fails() {
    assert!(clear_key("hlas-test-account-never-set").is_ok());
}

#[test]
fn store_round_trip_is_best_effort() {
    // The platform store may be a per-entry mock here; only the shapes are
    // checked.
    let _ = set_key("hlas-test-account", "secret");
    let _ = get_key("hlas-test-account");
    assert!(matches!(persist_key("hlas-test-account", " "), KeyUpdate::Clear));
    assert!(matches!(persist_key("hlas-test-account", " x "), KeyUpdate::Store(s) if s == "x"));
}

#[test]
fn store_outcomes_map_refusals() {
    assert!(matches!(store_outcome(Ok(())), Ok(())));
    assert!(matches!(store_outcome(Err(keyring::Error::NoEntry)), Err(KeyStoreError::Store(keyring::Error::NoEntry))));
    assert!(matches!(entry_outcome(Err(keyring::Error::NoEntry)), Err(KeyStoreError::Entry(keyring::Error::NoEntry))));
    assert_eq!(lookup_outcome(Ok("k".to_string())), Some("k".to_string()));
    assert_eq!(lookup_outcome(Err(keyring::Error::NoEntry)), None);
}

#[test]
fn key_requests_use_the_service() {
    let r = hlas::keystore::key_request("groq-api-key");
    assert_eq!(r.service, "com.gedeon.hlas");
    assert_eq!(r.account, "groq-api-key");
}
