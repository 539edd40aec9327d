use mukalujauh::auth::{HostPlatform, SystemAuthManager};
use mukalujauh::config::ConfigManager;
use mukalujauh::gui::{GuiServer, Route};
use mukalujauh::model::FaceIdentity;
use mukalujauh::passphrase::{
    device_key_passphrase, is_blank_text, passphrase_or_device_key, preset_passphrase,
    typed_passphrase_or_device_key,
};

#[test]
fn screen_lock_by_platform() {
    assert!(SystemAuthManager::is_screen_locked(HostPlatform::Linux, true));
    assert!(!SystemAuthManager::is_screen_locked(HostPlatform::Linux, false));
    assert!(SystemAuthManager::is_screen_locked(HostPlatform::Windows, true));
    assert!(!SystemAuthManager::is_screen_locked(HostPlatform::Windows, false));
    assert!(!SystemAuthManager::is_screen_locked(HostPlatform::Other, true));
    assert!(SystemAuthManager::trigger_unlock_success("endri"));
}

#[test]
fn paths_join_like_the_platform() {
    assert_eq!(
        ConfigManager::join_path(b"/home/a/.config/mukalujauh", b'/', b"config.toml"),
        b"/home/a/.config/mukalujauh/config.toml".to_vec()
    );
    assert_eq!(ConfigManager::join_path(b"/tmp/", b'/', b"identities.enc"), b"/tmp/identities.enc".to_vec());
    assert_eq!(ConfigManager::join_path(b"", b'/', b"config.toml"), b"config.toml".to_vec());
    assert_eq!(
        ConfigManager::join_path(b"C:\\Users\\a", b'\\', b"config.toml"),
        b"C:\\Users\\a\\config.toml".to_vec()
    );
    assert_eq!(ConfigManager::join_path(b"C:/x/", b'\\', b"config.toml"), b"C:/x/config.toml".to_vec());
    // A directory that is not valid UTF-8 is kept byte for byte.
    assert_eq!(
        ConfigManager::join_path(&[0x2f, 0xff, 0xfe], b'/', b"identities.enc"),
        [&[0x2fu8, 0xff, 0xfe, b'/'][..], b"identities.enc"].concat()
    );
    assert_eq!(ConfigManager::app_dir_from(None), b".mukalujauh".to_vec());
    assert_eq!(ConfigManager::app_dir_from(Some(b"/x".to_vec())), b"/x".to_vec());
    let config = ConfigManager::get_config_path();
    assert!(config.ends_with(b"config.toml") && config.len() > b"config.toml".len());
    assert!(ConfigManager::get_database_path().ends_with(b"identities.enc"));
    assert!(!ConfigManager::get_app_dir().is_empty());
}

#[test]
fn routes_of_the_dashboard() {
    assert_eq!(GuiServer::route("GET", "/"), Route::Index);
    assert_eq!(GuiServer::route("GET", "/api/status"), Route::Status);
    assert_eq!(GuiServer::route("POST", "/api/enroll"), Route::Enroll);
    assert_eq!(GuiServer::route("POST", "/api/verify"), Route::Verify);
    assert_eq!(GuiServer::route("POST", "/api/config"), Route::UpdateConfig);
    assert_eq!(GuiServer::route("POST", "/api/delete"), Route::Delete);
    assert_eq!(GuiServer::route("GET", "/api/enroll"), Route::NotFound);
    assert_eq!(GuiServer::route("POST", "/"), Route::NotFound);
    assert_eq!(GuiServer::route("PUT", "/api/config"), Route::NotFound);
}

#[test]
fn summaries_follow_profiles() {
    let mut a: FaceIdentity<u8> = FaceIdentity::new_at("A", 5);
    a.add_sample("Center".to_string(), 0, 5);
    a.add_sample("Tilt Up".to_string(), 1, 5);
    let mut b: FaceIdentity<u8> = FaceIdentity::new_at("B", 6);
    b.is_active = false;
    let list = GuiServer::load_summary_list(vec![a, b]);
    assert_eq!(list.len(), 2);
    assert_eq!(list[0].name, "A");
    assert_eq!(list[0].id, "face_a_5");
    assert_eq!(list[0].sample_count, 2);
    assert!(list[0].is_active);
    assert_eq!(list[1].sample_count, 0);
    assert!(!list[1].is_active);
    assert_eq!(list[1].created_at, 6);
}

#[test]
fn passphrase_defaults() {
    assert_eq!(device_key_passphrase(), "mukalujauh_local_device_key");
    assert_eq!(passphrase_or_device_key(None), "mukalujauh_local_device_key");
    assert_eq!(passphrase_or_device_key(Some("x".to_string())), "x");
    assert_eq!(typed_passphrase_or_device_key(" \t\n".to_string()), "mukalujauh_local_device_key");
    assert_eq!(typed_passphrase_or_device_key(" pw ".to_string()), " pw ");
    assert!(is_blank_text(""));
    assert!(is_blank_text("\u{3000} "));
    assert!(!is_blank_text(" a "));
    assert_eq!(preset_passphrase(Some("a".into()), Some("b".into())), Some("a".to_string()));
    assert_eq!(preset_passphrase(None, Some("b".into())), Some("b".to_string()));
    assert_eq!(preset_passphrase(None, None), None);
}
