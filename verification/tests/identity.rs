use yonder::identity::{
    detect_os, os_tag, parse_endpoint_id, secret_from_hex, secret_to_hex, short_id, Identity,
    IdentityError, SecretKey, VERSION,
};

#[test]
fn secret_round_trip_through_hex() {
    let s = SecretKey::generate();
    let hex = secret_to_hex(&s);
    assert_eq!(hex.len(), 64);
    let back = match secret_from_hex(&hex) {
        Ok(k) => k,
        Err(e) => panic!("{}", e.message()),
    };
    assert_eq!(back.public().to_string(), s.public().to_string());
}

#[test]
fn secret_from_hex_rejects_garbage() {
    assert!(secret_from_hex("not hex").is_err());
    assert!(secret_from_hex(&"aa".repeat(31)).is_err()); // 31 bytes
}

#[test]
fn identity_uses_explicit_display_name() {
    let s = SecretKey::generate();
    let id = Identity::new(&s, Some("Alice's Mac".into()));
    assert_eq!(id.name, "Alice's Mac");
    assert_eq!(id.id, s.public().to_string());
    assert_eq!(id.version, VERSION);
}

#[test]
fn identity_falls_back_to_a_non_empty_name() {
    let s = SecretKey::generate();
    let id = Identity::new(&s, None);
    assert!(!id.name.is_empty());
}

#[test]
fn identity_os_tag_is_one_of_the_known_buckets() {
    let s = SecretKey::generate();
    let id = Identity::new(&s, Some("X".into()));
    assert!(matches!(
        id.os.as_str(),
        "linux" | "macos" | "windows" | "android" | "unknown"
    ));
}

#[test]
fn parse_endpoint_id_round_trips() {
    let s = SecretKey::generate();
    let id_str = s.public().to_string();
    let parsed = match parse_endpoint_id(&id_str) {
        Ok(k) => k,
        Err(e) => panic!("{}", e.message()),
    };
    assert_eq!(parsed.to_string(), id_str);
}

#[test]
fn short_id_truncates_to_eight() {
    assert_eq!(short_id("0123456789abcdef"), "01234567");
    assert_eq!(short_id("abc"), "abc");
}

#[test]
fn secret_from_hex_reports_each_error() {
    match secret_from_hex("not hex") {
        Err(e @ IdentityError::InvalidHex(_)) => assert!(e.message().starts_with("invalid hex: ")),
        _ => panic!("expected an invalid-hex error"),
    }
    match secret_from_hex(&"aa".repeat(31)) {
        Err(e @ IdentityError::WrongLength(31)) => {
            assert_eq!(e.message(), "expected 32 bytes, got 31")
        }
        _ => panic!("expected a length error"),
    }
    // Uppercase is not HEXLOWER.
    assert!(matches!(
        secret_from_hex(&"AA".repeat(32)),
        Err(IdentityError::InvalidHex(_))
    ));
    // Odd length.
    assert!(matches!(
        secret_from_hex(&"a".repeat(63)),
        Err(IdentityError::InvalidHex(_))
    ));
}

#[test]
fn secret_hex_is_the_bytes_in_lowercase_hex() {
    let mut bytes = [0u8; 32];
    for (i, b) in bytes.iter_mut().enumerate() {
        *b = (i as u8) * 8 + 1;
    }
    let k = SecretKey::from_bytes(&bytes);
    let hex = secret_to_hex(&k);
    assert_eq!(&hex[..8], "01091119");
    let back = secret_from_hex(&hex).ok().unwrap();
    assert_eq!(back.to_bytes(), bytes);
}

#[test]
fn known_key_has_known_endpoint_id() {
    // RFC 8032, test 1.
    let secret = secret_from_hex("9d61b19deffd5a60ba844af492ec2cc44449c5697b326919703bac031cae7f60")
        .ok()
        .unwrap();
    assert_eq!(
        secret.public().to_string(),
        "d75a980182b10ab7d54bfed3c964073a0ee172f3daa62325af021a68f707511a"
    );
}

#[test]
fn parse_endpoint_id_rejects_garbage() {
    match parse_endpoint_id("zz") {
        Err(e @ IdentityError::InvalidEndpointId(_)) => {
            assert!(e.message().starts_with("invalid endpoint id: "))
        }
        _ => panic!("expected an endpoint id error"),
    }
}

#[test]
fn os_tags_bucket_the_os_info_types() {
    assert_eq!(os_tag("Macos"), "macos");
    assert_eq!(os_tag("Windows"), "windows");
    assert_eq!(os_tag("Android"), "android");
    for l in ["Linux", "Ubuntu", "Debian", "Fedora", "Arch", "Alpine", "Manjaro", "Mint", "openSUSE", "Pop", "EndeavourOS"] {
        assert_eq!(os_tag(l), "linux");
    }
    assert_eq!(os_tag("FreeBSD"), "unknown");
    assert_eq!(os_tag("Ios"), "unknown");
    assert!(["linux", "macos", "windows", "android", "unknown"].contains(&detect_os().as_str()));
}

#[test]
fn hex_errors_name_kind_and_position() {
    let msg = |s: &str| match secret_from_hex(s) {
        Err(e) => e.message(),
        Ok(_) => String::new(),
    };
    assert_eq!(msg("abc"), "invalid hex: invalid length at 2");
    assert_eq!(msg("0g"), "invalid hex: invalid symbol at 1");
    assert_eq!(msg("AB"), "invalid hex: invalid symbol at 0");
    assert_eq!(msg("not hex"), "invalid hex: invalid length at 6");
    assert_eq!(msg("abcd"), "expected 32 bytes, got 2");
}
