//! Identity of this device: its Ed25519 key pair (through `iroh-base`), the
//! endpoint id derived from it, its display name and its OS tag.
use vstd::prelude::*;
use crate::hex::{
    HexError,
    ascii_bytes, hex_error_of, hex_error_text, hex_decoded, hex_lower, hex_lower_decode, hex_lower_encode,
    lemma_hex_lower_ascii, valid_hex_lower,
};
use crate::text::str_eq;
use vstd::string::StringSliceAdditionalSpecFns;

verus! {

#[verifier::external_type_specification]
#[verifier::external_body]
pub struct ExKeyParsingError(iroh_base::KeyParsingError);

/// The Ed25519 public key that belongs to a 32-byte secret key.
pub uninterp spec fn ed25519_public_key(secret: Seq<u8>) -> Seq<u8>;

/// The public key that `PublicKey::from_str` reads from a text, if any.
pub uninterp spec fn public_key_from_text(text: Seq<char>) -> Option<Seq<u8>>;

/// The version string this build reports to its peers.
pub const VERSION: &'static str = "0.1.0";

/// Fresh random bytes for a secret key (`iroh_base::SecretKey::generate`).
#[verifier::external_body]
fn random_secret_bytes() -> [u8; 32] {
    iroh_base::SecretKey::generate().to_bytes()
}

/// `iroh_base::SecretKey::public`: the public key of a secret key. Its hex
/// text is what `PublicKey`'s `Display` prints, and `PublicKey::from_str`
/// reads that text back to the same key (`from_bytes` never fails on the
/// bytes of a key).
#[verifier::external_body]
fn ed25519_public(secret: &[u8; 32]) -> (r: [u8; 32])
    ensures
        r@ == ed25519_public_key(secret@),
        public_key_from_text(hex_lower(r@)) == Some(r@),
{
    *iroh_base::SecretKey::from_bytes(secret).public().as_bytes()
}

/// `<iroh_base::PublicKey as FromStr>::from_str`, which reads hex or
/// base32 text and refuses bytes that are not a curve point. The hex of a
/// key it accepted reads back to the same key.
#[verifier::external_body]
fn parse_public_key(text: &str) -> (r: Result<[u8; 32], iroh_base::KeyParsingError>)
    ensures
        match r {
            Ok(b) => public_key_from_text(text@) == Some(b@) && public_key_from_text(hex_lower(b@))
                == Some(b@),
            Err(_) => public_key_from_text(text@) is None,
        },
{
    text.parse::<iroh_base::PublicKey>().map(|k| *k.as_bytes())
}

/// The text of a key parsing error (its `Display`).
#[verifier::external_body]
fn key_error_text(e: &iroh_base::KeyParsingError) -> String {
    e.to_string()
}

/// A 32-byte Ed25519 secret key.
pub struct SecretKey {
    bytes: [u8; 32],
}

impl View for SecretKey {
    type V = Seq<u8>;

    closed spec fn view(&self) -> Seq<u8> {
        self.bytes@
    }
}

impl SecretKey {
    /// A new random key: 32 random bytes, any of which may come out, so
    /// nothing is stated of them beyond their number.
    pub fn generate() -> (r: SecretKey)
        ensures
            r@.len() == 32,
    {
        SecretKey { bytes: random_secret_bytes() }
    }

    /// The key with these bytes.
    pub fn from_bytes(bytes: &[u8; 32]) -> (r: SecretKey)
        ensures
            r@ == bytes@,
    {
        SecretKey { bytes: *bytes }
    }

    /// The bytes of the key.
    pub fn to_bytes(&self) -> (r: [u8; 32])
        ensures
            r@ == self@,
    {
        self.bytes
    }

    /// The public half, which is this device's endpoint id.
    pub fn public(&self) -> (r: EndpointId)
        ensures
            r@ == ed25519_public_key(self@),
            public_key_from_text(hex_lower(r@)) == Some(r@),
    {
        EndpointId { bytes: ed25519_public(&self.bytes) }
    }
}

/// The id by which peers know and dial a device: its Ed25519 public key.
pub struct EndpointId {
    bytes: [u8; 32],
}

impl View for EndpointId {
    type V = Seq<u8>;

    closed spec fn view(&self) -> Seq<u8> {
        self.bytes@
    }
}

impl EndpointId {
    /// Only keys that read back from their own hex text are held.
    #[verifier::type_invariant]
    closed spec fn reads_back(self) -> bool {
        public_key_from_text(hex_lower(self.bytes@)) == Some(self.bytes@)
    }

    /// The bytes of the key.
    pub fn as_bytes(&self) -> (r: &[u8; 32])
        ensures
            r@ == self@,
    {
        &self.bytes
    }

    /// Lowercase hex of the key, as `PublicKey`'s `Display` prints it.
    pub fn to_string(&self) -> (r: String)
        ensures
            r@ == hex_lower(self@),
            public_key_from_text(r@) == Some(self@),
    {
        proof {
            use_type_invariant(self);
        }
        hex_lower_encode(self.bytes.as_slice())
    }
}

/// Why a key or an endpoint id could not be read.
pub enum IdentityError {
    /// The text is not lowercase hex.
    InvalidHex(HexError),
    /// The hex spells this many bytes, not 32.
    WrongLength(usize),
    /// The text is not an endpoint id.
    InvalidEndpointId(iroh_base::KeyParsingError),
}

impl IdentityError {
    /// The message for the error.
    pub fn message(&self) -> (r: String)
        ensures
            self matches IdentityError::WrongLength(n) ==> r@ == "expected 32 bytes, got "@ + crate::text::decimal(n as nat),
            self matches IdentityError::InvalidHex(e) ==> r@ == "invalid hex: "@ + hex_error_text(*e),
    {
        match self {
            IdentityError::InvalidHex(e) => {
                proof {
                    reveal_strlit("invalid hex: ");
                }
                let mut r = "invalid hex: ".to_string();
                r.append(e.message().as_str());
                r
            },
            IdentityError::WrongLength(n) => {
                proof {
                    reveal_strlit("expected 32 bytes, got ");
                }
                let mut r = "expected 32 bytes, got ".to_string();
                r.append(crate::text::decimal_string(*n as u64).as_str());
                r
            },
            IdentityError::InvalidEndpointId(e) => {
                let mut r = "invalid endpoint id: ".to_string();
                r.append(key_error_text(e).as_str());
                r
            },
        }
    }
}

/// The most bytes of hex text that the decoder accepts without panicking.
pub open spec fn hex_text_fits(s: Seq<u8>) -> bool {
    s.len() <= usize::MAX / 8
}

/// The key's bytes as 64 lowercase hex characters.
pub fn secret_to_hex(s: &SecretKey) -> (r: String)
    ensures
        r@ == hex_lower(s@),
        r@.len() == 64,
{
    let bytes = s.to_bytes();
    hex_lower_encode(bytes.as_slice())
}

/// Reads a key back from its hex text: the text must be lowercase hex that
/// spells exactly 32 bytes.
pub fn secret_from_hex(s: &str) -> (r: Result<SecretKey, IdentityError>)
    requires
        hex_text_fits(s.spec_bytes()),
    ensures
        r is Ok <==> valid_hex_lower(s.spec_bytes()) && hex_decoded(s.spec_bytes()).len() == 32,
        r matches Ok(k) ==> k@ == hex_decoded(s.spec_bytes()),
        r matches Err(IdentityError::InvalidHex(_)) <==> !valid_hex_lower(s.spec_bytes()),
        r matches Err(IdentityError::InvalidHex(e)) ==> e == hex_error_of(s.spec_bytes()),
        r matches Err(IdentityError::WrongLength(n)) ==> n == hex_decoded(s.spec_bytes()).len(),
        !(r matches Err(IdentityError::InvalidEndpointId(_))),
{
    let bytes = match hex_lower_decode(s.as_bytes()) {
        Ok(b) => b,
        Err(e) => {
            return Err(IdentityError::InvalidHex(e));
        },
    };
    if bytes.len() != 32 {
        return Err(IdentityError::WrongLength(bytes.len()));
    }
    let mut arr: [u8; 32] = [0u8; 32];
    let mut i: usize = 0;
    while i < 32
        invariant
            bytes@.len() == 32,
            0 <= i <= 32,
            forall|j: int| 0 <= j < i ==> arr@[j] == bytes@[j],
        decreases 32 - i,
    {
        arr[i] = bytes[i];
        i = i + 1;
    }
    assert(arr@ =~= bytes@);
    Ok(SecretKey::from_bytes(&arr))
}

/// Reads an endpoint id from its text (hex or base32).
pub fn parse_endpoint_id(id: &str) -> (r: Result<EndpointId, IdentityError>)
    ensures
        match r {
            Ok(k) => public_key_from_text(id@) == Some(k@),
            Err(e) => public_key_from_text(id@) is None && e is InvalidEndpointId,
        },
{
    match parse_public_key(id) {
        Ok(b) => Ok(EndpointId { bytes: b }),
        Err(e) => Err(IdentityError::InvalidEndpointId(e)),
    }
}

/// A secret key survives the trip through its hex text: the text that
/// `secret_to_hex` writes for a key is text that `secret_from_hex` accepts,
/// and it decodes to the same key.
pub proof fn lemma_secret_hex_round_trip(text: Seq<char>, key: Seq<u8>)
    requires
        key.len() == 32,
        text == hex_lower(key),
    ensures
        hex_text_fits(vstd::utf8::encode_utf8(text)),
        valid_hex_lower(vstd::utf8::encode_utf8(text)),
        hex_decoded(vstd::utf8::encode_utf8(text)) == key,
        hex_decoded(vstd::utf8::encode_utf8(text)).len() == 32,
{
    lemma_hex_lower_ascii(key);
    vstd::utf8::is_ascii_chars_encode_utf8(text);
    assert(vstd::utf8::encode_utf8(text) =~= ascii_bytes(hex_lower(key)));
}

/// Compact label for an id: its first eight characters.
pub fn short_id(id: &str) -> (r: String)
    ensures
        r@ == id@.take(if id@.len() < 8 { id@.len() as int } else { 8 }),
{
    let len = id.unicode_len();
    let end = if len < 8 {
        len
    } else {
        8
    };
    let r = id.substring_char(0, end).to_string();
    assert(r@ =~= id@.take(end as int));
    r
}

/// The OS tags a device reports.
pub open spec fn is_os_tag(s: Seq<char>) -> bool {
    s == "linux"@ || s == "macos"@ || s == "windows"@ || s == "android"@ || s == "unknown"@
}

/// The `os_info::Type` variants that count as Linux.
pub open spec fn is_linux_type(name: Seq<char>) -> bool {
    name == "Linux"@ || name == "Ubuntu"@ || name == "Debian"@ || name == "Fedora"@ || name
        == "Arch"@ || name == "Alpine"@ || name == "Manjaro"@ || name == "Mint"@ || name
        == "openSUSE"@ || name == "Pop"@ || name == "EndeavourOS"@
}

/// The tag for an `os_info::Type`, given by its variant name.
pub open spec fn os_tag_of(variant: Seq<char>) -> Seq<char> {
    if variant == "Macos"@ {
        "macos"@
    } else if variant == "Windows"@ {
        "windows"@
    } else if variant == "Android"@ {
        "android"@
    } else if is_linux_type(variant) {
        "linux"@
    } else {
        "unknown"@
    }
}

/// The variant name of the running system's `os_info::Type`.
#[verifier::external_body]
fn os_variant() -> String {
    format!("{:?}", os_info::get().os_type())
}

/// The tag for the `os_info::Type` whose variant name is `variant`.
pub fn os_tag(variant: &str) -> (r: String)
    ensures
        r@ == os_tag_of(variant@),
        is_os_tag(r@),
{
    if str_eq(variant, "Macos") {
        "macos".to_string()
    } else if str_eq(variant, "Windows") {
        "windows".to_string()
    } else if str_eq(variant, "Android") {
        "android".to_string()
    } else if str_eq(variant, "Linux") || str_eq(variant, "Ubuntu") || str_eq(
        variant,
        "Debian",
    ) || str_eq(variant, "Fedora") || str_eq(variant, "Arch") || str_eq(variant, "Alpine")
        || str_eq(variant, "Manjaro") || str_eq(variant, "Mint") || str_eq(
        variant,
        "openSUSE",
    ) || str_eq(variant, "Pop") || str_eq(variant, "EndeavourOS") {
        "linux".to_string()
    } else {
        "unknown".to_string()
    }
}

/// One of `"linux" | "macos" | "windows" | "android" | "unknown"`, for the
/// running system.
pub fn detect_os() -> (r: String)
    ensures
        is_os_tag(r@),
{
    let name = os_variant();
    os_tag(name.as_str())
}

/// This machine's host name, when it has one that is valid UTF-8.
#[verifier::external_body]
pub(crate) fn host_name() -> Option<String> {
    hostname::get().ok().and_then(|h| h.into_string().ok())
}

/// The name a device shows when the user chose none: the host name if
/// there is a non-empty one, else `"Yonder Device"`.
pub open spec fn device_name_of(host: Option<Seq<char>>) -> Seq<char> {
    match host {
        Some(h) => if h.len() > 0 {
            h
        } else {
            "Yonder Device"@
        },
        None => "Yonder Device"@,
    }
}

/// A device name is never empty.
pub proof fn lemma_device_name_not_empty(host: Option<Seq<char>>)
    ensures
        device_name_of(host).len() > 0,
{
    reveal_strlit("Yonder Device");
}

/// The name a device shows when the user chose none.
pub fn fallback_device_name(host: Option<String>) -> (r: String)
    ensures
        r@ == device_name_of(
            match host {
                Some(h) => Some(h@),
                None => None,
            },
        ),
        r@.len() > 0,
{
    proof {
        reveal_strlit("Yonder Device");
    }
    match host {
        Some(h) => {
            if h.unicode_len() > 0 {
                h
            } else {
                "Yonder Device".to_string()
            }
        },
        None => "Yonder Device".to_string(),
    }
}

/// The endpoint id text of the key with these secret bytes.
pub open spec fn hex_lower_of_public(secret: Seq<u8>) -> Seq<char> {
    hex_lower(ed25519_public_key(secret))
}

/// Identity for this device.
pub struct Identity {
    /// The endpoint id, as text.
    pub id: String,
    pub name: String,
    pub os: String,
    pub version: String,
}

impl Identity {
    /// The identity for `secret`, named `display_name`, or after the host
    /// (else `"Yonder Device"`) when no name is given.
    pub fn new(secret: &SecretKey, display_name: Option<String>) -> (r: Identity)
        ensures
            r.id@ == hex_lower_of_public(secret@),
            display_name matches Some(n) ==> r.name == n,
            display_name is None ==> exists|host: Option<Seq<char>>|
                r.name@ == device_name_of(host),
            display_name is None ==> r.name@.len() > 0,
            is_os_tag(r.os@),
            r.version@ == VERSION@,
    {
        let name = match display_name {
            Some(n) => n,
            None => fallback_device_name(host_name()),
        };
        Identity {
            id: secret.public().to_string(),
            name,
            os: detect_os(),
            version: VERSION.to_string(),
        }
    }

    /// A copy of the identity.
    pub fn clone(&self) -> (r: Identity)
        ensures
            r == *self,
    {
        Identity {
            id: self.id.clone(),
            name: self.name.clone(),
            os: self.os.clone(),
            version: self.version.clone(),
        }
    }
}

/// A device's id depends on its key alone: identities built from the same
/// key, whatever their names, have the same id, and that id reads back as
/// the key's public half.
pub proof fn lemma_id_depends_on_key_only(a: Identity, b: Identity, key: Seq<u8>)
    requires
        a.id@ == hex_lower_of_public(key),
        b.id@ == hex_lower_of_public(key),
        public_key_from_text(hex_lower(ed25519_public_key(key))) == Some(ed25519_public_key(key)),
    ensures
        a.id@ == b.id@,
        public_key_from_text(a.id@) == Some(ed25519_public_key(key)),
{
}

} // verus!
