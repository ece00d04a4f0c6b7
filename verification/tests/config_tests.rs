use playlist_sync::SyncError;
use playlist_sync::validate_config;

fn some(s: &str) -> Option<String> {
    Some(s.to_string())
}

#[test]
fn complete_settings_are_accepted() {
    let config = validate_config(
        some("bot-token"),
        some("owner"),
        some("playlist"),
        some("client-id"),
        some("client-secret"),
        some("refresh-token"),
    )
    .unwrap();
    assert_eq!(config.chat_token, "bot-token");
    assert_eq!(config.playlist_owner, "owner");
    assert_eq!(config.playlist_id, "playlist");
    assert_eq!(config.client_id, "client-id");
    assert_eq!(config.client_secret, "client-secret");
    assert_eq!(config.refresh_token, "refresh-token");
}

#[test]
fn each_missing_setting_is_fatal() {
    let r = validate_config(None, some("o"), some("p"), some("i"), some("s"), some("r"));
    assert_eq!(r.unwrap_err(), SyncError::ConfigurationMissing);
    let r = validate_config(some("t"), None, some("p"), some("i"), some("s"), some("r"));
    assert_eq!(r.unwrap_err(), SyncError::ConfigurationMissing);
    let r = validate_config(some("t"), some("o"), None, some("i"), some("s"), some("r"));
    assert_eq!(r.unwrap_err(), SyncError::ConfigurationMissing);
    let r = validate_config(some("t"), some("o"), some("p"), None, some("s"), some("r"));
    assert_eq!(r.unwrap_err(), SyncError::ConfigurationMissing);
    let r = validate_config(some("t"), some("o"), some("p"), some("i"), None, some("r"));
    assert_eq!(r.unwrap_err(), SyncError::ConfigurationMissing);
    let r = validate_config(some("t"), some("o"), some("p"), some("i"), some("s"), None);
    assert_eq!(r.unwrap_err(), SyncError::ConfigurationMissing);
}
