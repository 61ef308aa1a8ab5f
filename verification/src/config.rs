//! User settings, their defaults, where they are kept, and the choice
//! between the settings found on disk and fresh defaults.
use vstd::prelude::*;
use crate::hex::{hex_decoded, hex_lower, valid_hex_lower};
use crate::identity::{
    device_name_of, fallback_device_name, host_name, lemma_secret_hex_round_trip, secret_from_hex, secret_to_hex,
    IdentityError, SecretKey,
};
use crate::paths::{join, join_path};

verus! {

/// User-configurable settings, persisted as JSON.
pub struct Settings {
    /// 32-byte Ed25519 secret key as 64 lowercase hex characters.
    pub secret_key: String,
    /// User-visible name for this device on the network.
    pub display_name: String,
    /// Directory where incoming files land.
    pub download_dir: String,
    /// Accept every incoming transfer without asking.
    pub auto_accept: bool,
    /// Start with the window hidden.
    pub start_minimized: bool,
    /// Start on login.
    pub start_on_login: bool,
    /// `"dark"` or `"light"`.
    pub theme: String,
}

impl Clone for Settings {
    fn clone(&self) -> (r: Settings)
        ensures
            r == *self,
    {
        Settings {
            secret_key: self.secret_key.clone(),
            display_name: self.display_name.clone(),
            download_dir: self.download_dir.clone(),
            auto_accept: self.auto_accept,
            start_minimized: self.start_minimized,
            start_on_login: self.start_on_login,
            theme: self.theme.clone(),
        }
    }
}

/// Key text short enough for the hex decoder (see `secret_from_hex`).
pub open spec fn key_text_fits(s: Seq<char>) -> bool {
    vstd::utf8::encode_utf8(s).len() <= usize::MAX / 8
}

/// Key text that reads back to a key: lowercase hex spelling 32 bytes.
pub open spec fn valid_key_text(s: Seq<char>) -> bool {
    valid_hex_lower(vstd::utf8::encode_utf8(s)) && hex_decoded(vstd::utf8::encode_utf8(s)).len()
        == 32
}

/// The download directory's path: `<downloads>/Yonder`, where the
/// downloads folder falls back to `<home>/Downloads`, and home to `.`.
pub open spec fn download_dir_path(download: Option<Seq<char>>, home: Option<Seq<char>>) -> Seq<
    char,
> {
    let base = match download {
        Some(d) => d,
        None => join_path(
            match home {
                Some(h) => h,
                None => "."@,
            },
            "Downloads"@,
        ),
    };
    join_path(base, "Yonder"@)
}

/// The configuration directory's path: `<config>/yonder`, where the
/// configuration folder falls back to `<home>/.config`, and home to `.`.
pub open spec fn config_dir_path(config: Option<Seq<char>>, home: Option<Seq<char>>) -> Seq<char> {
    let base = match config {
        Some(c) => c,
        None => join_path(
            match home {
                Some(h) => h,
                None => "."@,
            },
            ".config"@,
        ),
    };
    join_path(base, "yonder"@)
}

/// The user's downloads folder (`dirs::download_dir`), as text: bytes that are not UTF-8 read
/// as U+FFFD (`to_string_lossy`), which is how paths become settings text.
#[verifier::external_body]
fn downloads_folder() -> Option<String> {
    dirs::download_dir().map(|p| p.to_string_lossy().to_string())
}

/// The user's home folder (`dirs::home_dir`), as text: bytes that are not UTF-8 read
/// as U+FFFD (`to_string_lossy`), which is how paths become settings text.
#[verifier::external_body]
fn home_folder() -> Option<String> {
    dirs::home_dir().map(|p| p.to_string_lossy().to_string())
}

/// The user's configuration folder (`dirs::config_dir`), as text: bytes that are not UTF-8 read
/// as U+FFFD (`to_string_lossy`), which is how paths become settings text.
#[verifier::external_body]
fn config_folder() -> Option<String> {
    dirs::config_dir().map(|p| p.to_string_lossy().to_string())
}

/// `folder`, or `<home>/<sub>` when there is none (home falling back to `.`).
fn folder_or_home_sub(folder: Option<String>, home: Option<String>, sub: &str) -> (r: String)
    ensures
        r@ == match folder {
            Some(f) => f@,
            None => join_path(
                match home {
                    Some(h) => h@,
                    None => "."@,
                },
                sub@,
            ),
        },
{
    match folder {
        Some(f) => f,
        None => {
            let h = match home {
                Some(h) => h,
                None => ".".to_string(),
            };
            join(h.as_str(), sub)
        },
    }
}

/// The download directory for the given folders.
pub fn download_dir_for(download: Option<String>, home: Option<String>) -> (r: String)
    ensures
        r@ == download_dir_path(
            match download {
                Some(d) => Some(d@),
                None => None,
            },
            match home {
                Some(h) => Some(h@),
                None => None,
            },
        ),
{
    let base = folder_or_home_sub(download, home, "Downloads");
    join(base.as_str(), "Yonder")
}

/// The configuration directory for the given folders.
pub fn config_dir_for(config: Option<String>, home: Option<String>) -> (r: String)
    ensures
        r@ == config_dir_path(
            match config {
                Some(c) => Some(c@),
                None => None,
            },
            match home {
                Some(h) => Some(h@),
                None => None,
            },
        ),
{
    let base = folder_or_home_sub(config, home, ".config");
    join(base.as_str(), "yonder")
}

/// Where incoming files land by default.
pub fn default_download_dir() -> (r: String)
    ensures
        exists|d: Option<Seq<char>>, h: Option<Seq<char>>| r@ == download_dir_path(d, h),
{
    let download = downloads_folder();
    let home = if download.is_some() {
        None
    } else {
        home_folder()
    };
    let r = download_dir_for(download, home);
    r
}

/// This app's configuration directory.
pub fn config_dir() -> (r: String)
    ensures
        exists|c: Option<Seq<char>>, h: Option<Seq<char>>| r@ == config_dir_path(c, h),
{
    let config = config_folder();
    let home = if config.is_some() {
        None
    } else {
        home_folder()
    };
    config_dir_for(config, home)
}

/// The settings file.
pub fn settings_path() -> (r: String)
    ensures
        exists|c: Option<Seq<char>>, h: Option<Seq<char>>|
            r@ == join_path(config_dir_path(c, h), "settings.json"@),
{
    let dir = config_dir();
    join(dir.as_str(), "settings.json")
}

impl Settings {
    /// Defaults around a key: named after the host (or `"Yonder Device"`),
    /// downloading to `download_dir`, dark, asking before each transfer.
    pub fn defaults_with(secret_key_hex: String, host: Option<String>, download_dir: String) -> (r:
        Settings)
        ensures
            r.secret_key == secret_key_hex,
            r.display_name@ == device_name_of(
                match host {
                    Some(h) => Some(h@),
                    None => None,
                },
            ),
            r.download_dir == download_dir,
            !r.auto_accept,
            !r.start_minimized,
            !r.start_on_login,
            r.theme@ == "dark"@,
    {
        Settings {
            secret_key: secret_key_hex,
            display_name: fallback_device_name(host),
            download_dir,
            auto_accept: false,
            start_minimized: false,
            start_on_login: false,
            theme: "dark".to_string(),
        }
    }

    /// Defaults around a key, for this machine: named after the host (else
    /// `"Yonder Device"`), downloading to `<downloads>/Yonder`.
    pub fn defaults_for(secret_key_hex: String) -> (r: Settings)
        ensures
            r.secret_key == secret_key_hex,
            exists|h: Option<Seq<char>>| r.display_name@ == device_name_of(h),
            r.display_name@.len() > 0,
            exists|d: Option<Seq<char>>, h: Option<Seq<char>>|
                r.download_dir@ == download_dir_path(d, h),
            !r.auto_accept,
            !r.start_minimized,
            !r.start_on_login,
            r.theme@ == "dark"@,
    {
        let download_dir = default_download_dir();
        let host = host_name();
        proof {
            crate::identity::lemma_device_name_not_empty(
                match &host {
                    Some(h) => Some(h@),
                    None => None,
                },
            );
        }
        Settings::defaults_with(secret_key_hex, host, download_dir)
    }

    /// The secret key the settings hold.
    pub fn secret(&self) -> (r: Result<SecretKey, IdentityError>)
        requires
            key_text_fits(self.secret_key@),
        ensures
            r is Ok <==> valid_key_text(self.secret_key@),
            r matches Ok(k) ==> k@ == hex_decoded(vstd::utf8::encode_utf8(self.secret_key@)),
            r matches Err(IdentityError::InvalidHex(_)) <==> !valid_hex_lower(
                vstd::utf8::encode_utf8(self.secret_key@),
            ),
            r matches Err(IdentityError::InvalidHex(e)) ==> e == crate::hex::hex_error_of(
                vstd::utf8::encode_utf8(self.secret_key@),
            ),
            r matches Err(IdentityError::WrongLength(n)) ==> n == hex_decoded(
                vstd::utf8::encode_utf8(self.secret_key@),
            ).len(),
            !(r matches Err(IdentityError::InvalidEndpointId(_))),
    {
        secret_from_hex(self.secret_key.as_str())
    }
}

/// What the settings file held, if it could be read as settings, decides
/// what the app runs with: settings whose key reads back are kept as they
/// are; otherwise fresh defaults around a new key are used, and must be
/// written back (the flag).
pub fn settings_or_defaults(loaded: Option<Settings>) -> (r: (Settings, bool))
    requires
        loaded matches Some(s) ==> key_text_fits(s.secret_key@),
    ensures
        valid_key_text(r.0.secret_key@),
        match loaded {
            Some(s) => valid_key_text(s.secret_key@) ==> r == (s, false),
            None => true,
        },
        r.1 <==> !(loaded matches Some(s) && valid_key_text(s.secret_key@)),
        r.1 ==> {
            &&& !r.0.auto_accept
            &&& !r.0.start_minimized
            &&& !r.0.start_on_login
            &&& r.0.theme@ == "dark"@
            &&& exists|d: Option<Seq<char>>, h: Option<Seq<char>>|
                r.0.download_dir@ == download_dir_path(d, h)
            &&& exists|h: Option<Seq<char>>| r.0.display_name@ == device_name_of(h)
        },
{
    if let Some(s) = loaded {
        if s.secret().is_ok() {
            return (s, false);
        }
    }
    let key = SecretKey::generate();
    let hex = secret_to_hex(&key);
    proof {
        lemma_secret_hex_round_trip(hex@, key@);
    }
    (Settings::defaults_for(hex), true)
}

} // verus!
