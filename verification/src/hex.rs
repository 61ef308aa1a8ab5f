//! Lowercase hexadecimal, through `data_encoding::HEXLOWER`.
use vstd::prelude::*;

verus! {

/// Why hex text was refused (the kinds of `data_encoding::DecodeKind`).
#[derive(Clone, Copy, PartialEq, Eq, Structural, Debug)]
pub enum HexErrorKind {
    Length,
    Symbol,
    Trailing,
    Padding,
}

/// A refusal of hex text: its kind and the input position it was found at.
#[derive(Clone, Copy, PartialEq, Eq, Structural, Debug)]
pub struct HexError {
    pub kind: HexErrorKind,
    pub position: usize,
}

/// The error that `data_encoding::HEXLOWER.decode` reports for text it
/// refuses: an odd length first, as `Length` at the largest valid length
/// (one less); otherwise `Symbol` at the lowest index of a byte that is not
/// a lowercase hex symbol.
pub open spec fn hex_error_of(input: Seq<u8>) -> HexError {
    if input.len() % 2 == 1 {
        HexError { kind: HexErrorKind::Length, position: (input.len() - 1) as usize }
    } else {
        HexError {
            kind: HexErrorKind::Symbol,
            position: (choose|i: int|
                0 <= i < input.len() && !is_hex_lower_byte(input[i]) && forall|j: int|
                    0 <= j < i ==> is_hex_lower_byte(#[trigger] input[j])) as usize,
        }
    }
}

/// How `DecodeKind`'s `Display` names a kind.
pub open spec fn hex_error_kind_text(k: HexErrorKind) -> Seq<char> {
    match k {
        HexErrorKind::Length => "invalid length"@,
        HexErrorKind::Symbol => "invalid symbol"@,
        HexErrorKind::Trailing => "non-zero trailing bits"@,
        HexErrorKind::Padding => "invalid padding length"@,
    }
}

/// The text of a refusal, as `DecodeError`'s `Display` writes it: the
/// kind, ` at `, and the position.
pub open spec fn hex_error_text(e: HexError) -> Seq<char> {
    hex_error_kind_text(e.kind) + " at "@ + crate::text::decimal(e.position as nat)
}

impl HexError {
    /// The text of the refusal.
    pub fn message(&self) -> (r: String)
        ensures
            r@ == hex_error_text(*self),
    {
        let mut r = match self.kind {
            HexErrorKind::Length => "invalid length".to_string(),
            HexErrorKind::Symbol => "invalid symbol".to_string(),
            HexErrorKind::Trailing => "non-zero trailing bits".to_string(),
            HexErrorKind::Padding => "invalid padding length".to_string(),
        };
        r.append(" at ");
        r.append(crate::text::decimal_string(self.position as u64).as_str());
        r
    }
}

/// The symbol for a value below sixteen.
pub open spec fn hex_symbol(v: int) -> char {
    if v < 10 {
        (('0' as int) + v) as char
    } else {
        (('a' as int) + v - 10) as char
    }
}

/// Lowercase hex of `bytes`, most significant nibble first.
pub open spec fn hex_lower(bytes: Seq<u8>) -> Seq<char> {
    Seq::new(
        2 * bytes.len(),
        |i: int|
            if i % 2 == 0 {
                hex_symbol(bytes[i / 2] as int / 16)
            } else {
                hex_symbol(bytes[i / 2] as int % 16)
            },
    )
}

/// A byte that `HEXLOWER` decodes: `0`-`9` or `a`-`f`.
pub open spec fn is_hex_lower_byte(c: u8) -> bool {
    (48 <= c <= 57) || (97 <= c <= 102)
}

/// The value of a hex symbol byte.
pub open spec fn hex_value(c: u8) -> int {
    if c <= 57 {
        c - 48
    } else {
        c - 87
    }
}

/// Input that `HEXLOWER` decodes without error: an even number of bytes,
/// each a lowercase hex symbol.
pub open spec fn valid_hex_lower(s: Seq<u8>) -> bool {
    &&& s.len() % 2 == 0
    &&& forall|i: int| 0 <= i < s.len() ==> is_hex_lower_byte(#[trigger] s[i])
}

/// What `HEXLOWER` decodes valid input to.
pub open spec fn hex_decoded(s: Seq<u8>) -> Seq<u8> {
    Seq::new(
        s.len() / 2,
        |i: int| (16 * hex_value(s[2 * i]) + hex_value(s[2 * i + 1])) as u8,
    )
}

/// The bytes of the characters of an ASCII text.
pub open spec fn ascii_bytes(s: Seq<char>) -> Seq<u8> {
    Seq::new(s.len(), |i: int| s[i] as u8)
}

/// `data_encoding::HEXLOWER.encode`: two lowercase hex symbols per byte,
/// most significant nibble first. It asserts that the input is at most
/// `usize::MAX / 512` bytes long.
#[verifier::external_body]
pub(crate) fn hex_lower_encode(input: &[u8]) -> (r: String)
    requires
        input@.len() <= usize::MAX / 512,
    ensures
        r@ == hex_lower(input@),
{
    data_encoding::HEXLOWER.encode(input)
}

/// `data_encoding::HEXLOWER.decode`: succeeds exactly on an even number of
/// lowercase hex symbols (uppercase is refused) and returns the bytes they
/// spell. It asserts that the input is at most `usize::MAX / 8` bytes long.
/// A refusal is the error [`hex_error_of`] describes, carried over field by
/// field.
#[verifier::external_body]
pub(crate) fn hex_lower_decode(input: &[u8]) -> (r: Result<Vec<u8>, HexError>)
    requires
        input@.len() <= usize::MAX / 8,
    ensures
        r is Ok <==> valid_hex_lower(input@),
        r matches Ok(v) ==> v@ == hex_decoded(input@),
        r matches Err(e) ==> e == hex_error_of(input@),
{
    match data_encoding::HEXLOWER.decode(input) {
        Ok(v) => Ok(v),
        Err(e) => Err(HexError {
            kind: match e.kind {
                data_encoding::DecodeKind::Length => HexErrorKind::Length,
                data_encoding::DecodeKind::Symbol => HexErrorKind::Symbol,
                data_encoding::DecodeKind::Trailing => HexErrorKind::Trailing,
                data_encoding::DecodeKind::Padding => HexErrorKind::Padding,
            },
            position: e.position,
        }),
    }
}

/// Hex text is ASCII, and its bytes are its characters.
pub proof fn lemma_hex_lower_ascii(bytes: Seq<u8>)
    ensures
        vstd::utf8::is_ascii_chars(hex_lower(bytes)),
        valid_hex_lower(ascii_bytes(hex_lower(bytes))),
        hex_decoded(ascii_bytes(hex_lower(bytes))) == bytes,
{
    let h = hex_lower(bytes);
    let a = ascii_bytes(h);
    assert forall|i: int| 0 <= i < h.len() implies (h[i] as u32) < 128 by {
        let b = bytes[i / 2] as int;
        assert(0 <= b / 16 < 16);
    }
    assert forall|i: int| 0 <= i < a.len() implies is_hex_lower_byte(#[trigger] a[i]) by {
        let b = bytes[i / 2] as int;
        assert(0 <= b / 16 < 16);
    }
    assert(a.len() % 2 == 0);
    let d = hex_decoded(a);
    assert forall|i: int| 0 <= i < bytes.len() implies d[i] == bytes[i] by {
        let b = bytes[i] as int;
        assert((2 * i) / 2 == i);
        assert((2 * i + 1) / 2 == i);
        assert((2 * i) % 2 == 0);
        assert((2 * i + 1) % 2 == 1);
        assert(hex_value(a[2 * i]) == b / 16);
        assert(hex_value(a[2 * i + 1]) == b % 16);
        assert(16 * (b / 16) + b % 16 == b);
    }
    assert(d =~= bytes);
}

} // verus!
