use gnedby::config::{
    decrypt_token, encrypt_token, encryption_key, load_embed_config, load_sync_config,
    save_embed_config, save_sync_config, xor_bytes, EmbedConfig, SettingChange, SyncConfig,
    TokenConfig,
};

const DIR: &str = "/home/someone/.config/gnedby";

fn configured() -> SyncConfig {
    SyncConfig {
        storage_url: Some("https://storage.example.com/bucket".to_string()),
        token: Some("secret-token".to_string()),
        last_sync: Some("2024-01-01T00:00:00+00:00".to_string()),
        auto_sync: true,
    }
}

#[test]
fn key_is_32_bytes_and_depends_on_directory() {
    let a = encryption_key(DIR);
    let b = encryption_key("/other");
    assert_eq!(a.len(), 32);
    assert_ne!(a, b);
    assert_eq!(a, encryption_key(DIR));
}

#[test]
fn xor_with_repeating_key() {
    assert_eq!(xor_bytes(&[1, 2, 3, 4, 5], &[1, 2]), vec![0, 0, 2, 6, 4]);
    let data = vec![9u8, 200, 17, 0];
    let key = vec![77u8, 3, 250];
    assert_eq!(xor_bytes(&xor_bytes(&data, &key), &key), data);
}

#[test]
fn token_concealment_round_trip() {
    let key = encryption_key(DIR);
    let hidden = encrypt_token("secret-token", &key);
    assert_ne!(hidden, "secret-token");
    assert_eq!(decrypt_token(&hidden, &key), Some("secret-token".to_string()));
}

#[test]
fn known_concealment() {
    assert_eq!(encrypt_token("ab", &[1]), "YGM=");
    assert_eq!(decrypt_token("YGM=", &[1]), Some("ab".to_string()));
}

#[test]
fn decrypt_rejects_non_base64() {
    let key = encryption_key(DIR);
    assert_eq!(decrypt_token("not base64!", &key), None);
}

#[test]
fn saved_config_conceals_token_and_load_reveals_it() {
    let config = configured();
    let stored = save_sync_config(&config, DIR);
    assert_ne!(stored.token, config.token);
    assert_eq!(stored.storage_url, config.storage_url);
    assert_eq!(stored.last_sync, config.last_sync);
    assert!(stored.auto_sync);
    let loaded = load_sync_config(stored, DIR);
    assert_eq!(loaded.token, config.token);
    assert_eq!(loaded.storage_url, config.storage_url);
}

#[test]
fn clear_text_token_is_kept_on_load() {
    let mut stored = configured();
    stored.token = Some("plain token!".to_string());
    let loaded = load_sync_config(stored, DIR);
    assert_eq!(loaded.token, Some("plain token!".to_string()));
}

#[test]
fn empty_token_stays_empty() {
    let mut config = configured();
    config.token = Some(String::new());
    assert_eq!(save_sync_config(&config, DIR).token, Some(String::new()));
    assert_eq!(load_sync_config(config, DIR).token, Some(String::new()));
}

#[test]
fn embed_config_round_trip() {
    let config = EmbedConfig { api_url: Some("https://api.example.com".to_string()), token: Some("k".to_string()) };
    let stored = save_embed_config(&config, DIR);
    assert_ne!(stored.token, config.token);
    let loaded = load_embed_config(stored, DIR);
    assert_eq!(loaded.token, Some("k".to_string()));
    assert_eq!(loaded.api_url, config.api_url);
}

#[test]
fn default_config_is_unconfigured() {
    let c = SyncConfig::default();
    assert!(c.storage_url.is_none() && c.token.is_none() && c.last_sync.is_none());
    assert!(!c.auto_sync);
    assert!(!c.is_configured());
    let e = EmbedConfig::default();
    assert!(e.api_url.is_none() && e.token.is_none());
}

#[test]
fn auto_sync_needs_flag_and_both_settings() {
    let mut c = configured();
    assert!(c.auto_sync_ready());
    c.token = None;
    assert!(!c.auto_sync_ready());
    let mut d = configured();
    d.auto_sync = false;
    assert!(!d.auto_sync_ready());
}

#[test]
fn token_accessors() {
    let mut c = SyncConfig::default();
    assert_eq!(c.get_token(), None);
    c.set_token("t1".to_string());
    assert_eq!(c.get_token(), Some("t1"));
    let mut e = EmbedConfig::default();
    e.set_token("t2".to_string());
    assert_eq!(e.get_token(), Some("t2"));
}

#[test]
fn set_token_keeps_other_fields() {
    let mut c = SyncConfig {
        storage_url: Some("https://x".to_string()),
        token: Some("old".to_string()),
        last_sync: Some("never".to_string()),
        auto_sync: true,
    };
    c.set_token("new".to_string());
    assert_eq!(c.token.as_deref(), Some("new"));
    assert_eq!(c.storage_url.as_deref(), Some("https://x"));
    assert_eq!(c.last_sync.as_deref(), Some("never"));
    assert!(c.auto_sync);
    let mut e = EmbedConfig { api_url: Some("https://api".to_string()), token: None };
    e.set_token("t".to_string());
    assert_eq!(e.api_url.as_deref(), Some("https://api"));
}

#[test]
fn settings_by_key() {
    let mut c = SyncConfig::default();
    assert_eq!(c.apply_setting("storage_url", "https://x".to_string()), SettingChange::StorageUrl);
    assert_eq!(c.storage_url.as_deref(), Some("https://x"));
    assert_eq!(
        c.apply_setting("auto_sync", "TRUE".to_string()),
        SettingChange::AutoSync { enabled: true, incomplete: true }
    );
    assert!(c.auto_sync);
    assert_eq!(c.apply_setting("token", "tok".to_string()), SettingChange::Token);
    assert_eq!(c.token.as_deref(), Some("tok"));
    assert_eq!(
        c.apply_setting("auto_sync", "true".to_string()),
        SettingChange::AutoSync { enabled: true, incomplete: false }
    );
    assert_eq!(
        c.apply_setting("auto_sync", "yes".to_string()),
        SettingChange::AutoSync { enabled: false, incomplete: false }
    );
    assert!(!c.auto_sync);
    assert_eq!(c.apply_setting("colour", "blue".to_string()), SettingChange::UnknownKey);
    assert_eq!(c.storage_url.as_deref(), Some("https://x"));
}
