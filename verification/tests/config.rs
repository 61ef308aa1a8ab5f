use yonder::config::{
    config_dir_for, download_dir_for, settings_or_defaults, settings_path, Settings,
};
use yonder::identity::{fallback_device_name, secret_to_hex, IdentityError, SecretKey};

fn sample() -> Settings {
    let key = SecretKey::generate();
    Settings::defaults_for(secret_to_hex(&key))
}

#[test]
fn defaults_have_sane_baseline() {
    let s = sample();
    assert_eq!(s.secret_key.len(), 64);
    assert!(s.secret().is_ok());
    assert!(!s.auto_accept);
    assert!(!s.start_minimized);
    assert!(!s.start_on_login);
    assert_eq!(s.theme, "dark");
    assert!(!s.display_name.is_empty());
    assert!(s.download_dir.contains("Yonder"));
}

#[test]
fn defaults_with_falls_back_to_device_name() {
    let s = Settings::defaults_with("k".to_string(), None, "/d".to_string());
    assert_eq!(s.display_name, "Yonder Device");
    let t = Settings::defaults_with("k".to_string(), Some("host".to_string()), "/d".to_string());
    assert_eq!(t.display_name, "host");
    assert_eq!(t.download_dir, "/d");
    assert_eq!(t.secret_key, "k");
}

#[test]
fn folders_fall_back_to_home_then_current_dir() {
    assert_eq!(download_dir_for(Some("/x/Downloads".into()), None), "/x/Downloads/Yonder");
    assert_eq!(download_dir_for(None, Some("/home/u".into())), "/home/u/Downloads/Yonder");
    assert_eq!(download_dir_for(None, None), "./Downloads/Yonder");
    assert_eq!(config_dir_for(Some("/home/u/.config".into()), None), "/home/u/.config/yonder");
    assert_eq!(config_dir_for(None, Some("/home/u".into())), "/home/u/.config/yonder");
    assert_eq!(config_dir_for(None, None), "./.config/yonder");
    assert!(settings_path().ends_with("yonder/settings.json"));
}

#[test]
fn valid_settings_are_kept_and_bad_ones_replaced() {
    let s = sample();
    let key = s.secret_key.clone();
    let (kept, save) = settings_or_defaults(Some(s));
    assert!(!save);
    assert_eq!(kept.secret_key, key);

    let mut bad = sample();
    bad.secret_key = "zz".to_string();
    bad.theme = "light".to_string();
    let (fresh, save) = settings_or_defaults(Some(bad));
    assert!(save);
    assert_eq!(fresh.theme, "dark");
    assert!(fresh.secret().is_ok());

    let (fresh, save) = settings_or_defaults(None);
    assert!(save);
    assert!(fresh.secret().is_ok());
}

#[test]
fn an_empty_host_name_gives_the_default_device_name() {
    assert_eq!(fallback_device_name(Some(String::new())), "Yonder Device");
    assert_eq!(fallback_device_name(Some("box".into())), "box");
    assert_eq!(fallback_device_name(None), "Yonder Device");
    let s = Settings::defaults_with("k".to_string(), Some(String::new()), "/d".to_string());
    assert_eq!(s.display_name, "Yonder Device");
}

#[test]
fn settings_secret_names_its_error() {
    let mut s = sample();
    assert!(s.secret().is_ok());
    s.secret_key = "XYZ".to_string();
    assert!(matches!(s.secret(), Err(IdentityError::InvalidHex(_))));
    s.secret_key = "abcd".to_string();
    assert!(matches!(s.secret(), Err(IdentityError::WrongLength(2))));
}

#[test]
fn fresh_defaults_are_complete() {
    let (s, save) = settings_or_defaults(None);
    assert!(save);
    assert!(s.secret().is_ok());
    assert!(!s.auto_accept && !s.start_minimized && !s.start_on_login);
    assert_eq!(s.theme, "dark");
    assert!(!s.display_name.is_empty());
    assert!(s.download_dir.ends_with("Yonder"));
}

#[test]
fn settings_secret_gives_the_readers_message() {
    let mut s = sample();
    s.secret_key = "x0".to_string();
    let e = s.secret().err().unwrap();
    assert_eq!(e.message(), "invalid hex: invalid symbol at 0");
}
