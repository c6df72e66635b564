use myr::bookmarks::{FileBookmarksStore, SavedBookmark};
use myr::profiles::{
    has_client_identity, keyring_coordinates, non_empty, profile_requests_tls, ConnectionProfile,
    FileProfilesStore, TlsMode,
};

#[test]
fn tls_mode_prefer_requires_explicit_tls_settings() {
    let mut profile = ConnectionProfile::new("local", "127.0.0.1", "root");
    profile.tls_mode = TlsMode::Prefer;
    assert!(!profile_requests_tls(&profile));

    profile.tls_ca_cert_path = Some("/tmp/ca.pem".to_string());
    assert!(profile_requests_tls(&profile));
}

#[test]
fn tls_mode_require_always_uses_tls() {
    let mut profile = ConnectionProfile::new("local", "127.0.0.1", "root");
    profile.tls_mode = TlsMode::Require;
    assert!(profile_requests_tls(&profile));
}

#[test]
fn tls_disabled_and_blank_settings_mean_no_tls() {
    let mut profile = ConnectionProfile::new("local", "127.0.0.1", "root");
    profile.tls_ca_cert_path = Some("   ".to_string());
    assert!(!profile_requests_tls(&profile));
    profile.tls_skip_domain_validation = true;
    assert!(profile_requests_tls(&profile));
    profile.tls_mode = TlsMode::Disabled;
    assert!(!profile_requests_tls(&profile));
}

#[test]
fn client_identity_requires_both_cert_and_key_paths() {
    let mut profile = ConnectionProfile::new("local", "127.0.0.1", "root");
    profile.tls_mode = TlsMode::VerifyIdentity;
    profile.tls_client_cert_path = Some("/tmp/client-cert.pem".to_string());
    assert!(!has_client_identity(&profile));

    profile.tls_client_key_path = Some("/tmp/client-key.pem".to_string());
    assert!(has_client_identity(&profile));
}

#[test]
fn keyring_coordinates_default_to_service_and_profile_name() {
    let mut profile = ConnectionProfile::new("prod", "db", "admin");
    assert_eq!(keyring_coordinates(&profile), ("myr".to_string(), "prod".to_string()));
    profile.keyring_service = Some(" vault ".to_string());
    profile.keyring_account = Some(" ".to_string());
    assert_eq!(keyring_coordinates(&profile), ("vault".to_string(), "prod".to_string()));
    assert_eq!(non_empty(&Some("  x ".to_string())), Some("x".to_string()));
    assert_eq!(non_empty(&None), None);
}

#[test]
fn profile_store_keeps_one_sorted_entry_per_name() {
    let mut store = FileProfilesStore::from_path("/tmp/profiles.toml");
    store.upsert_profile(ConnectionProfile::new("zeta", "h1", "u"));
    store.upsert_profile(ConnectionProfile::new("alpha", "h2", "u"));
    let mut replaced = ConnectionProfile::new("zeta", "h3", "u");
    replaced.port = 3307;
    store.upsert_profile(replaced);
    let names: Vec<&str> = store.profiles().iter().map(|p| p.name.as_str()).collect();
    assert_eq!(names, vec!["alpha", "zeta"]);
    assert_eq!(store.profile("zeta").map(|p| p.port), Some(3307));
    assert!(store.delete_profile("alpha"));
    assert!(!store.delete_profile("alpha"));
    assert!(store.profile("alpha").is_none());
    assert_eq!(store.path(), "/tmp/profiles.toml");
}

#[test]
fn bookmark_store_keeps_one_sorted_entry_per_name() {
    let mut store = FileBookmarksStore::from_path("/tmp/bookmarks.toml");
    let mut users = SavedBookmark::new("users");
    users.table = Some("users".to_string());
    store.upsert_bookmark(users);
    store.upsert_bookmark(SavedBookmark::new("events"));
    let mut again = SavedBookmark::new("users");
    again.query = Some("SELECT 1".to_string());
    store.upsert_bookmark(again);
    let names: Vec<&str> = store.bookmarks().iter().map(|b| b.name.as_str()).collect();
    assert_eq!(names, vec!["events", "users"]);
    assert_eq!(
        store.bookmark("users").and_then(|b| b.query.clone()),
        Some("SELECT 1".to_string())
    );
    assert!(store.delete_bookmark("events"));
    assert_eq!(store.bookmarks().len(), 1);
}
