//! Text encodings the relayer produces or checks: lowercase hex, standard
//! base64, UTF-8 and NEAR account ids.
use vstd::prelude::*;
use vstd::utf8::{encode_utf8, valid_utf8};
use base64::Engine;

verus! {

/// The character for a value below 16 in lowercase hexadecimal.
pub open spec fn hex_digit(n: int) -> char {
    if n < 10 {
        (48 + n) as char
    } else {
        (87 + n) as char
    }
}

/// Lowercase hexadecimal: two characters per byte, high nibble first.
pub open spec fn hex_lower(data: Seq<u8>) -> Seq<char>
    decreases data.len(),
{
    if data.len() == 0 {
        Seq::empty()
    } else {
        seq![hex_digit(data[0] as int / 16), hex_digit(data[0] as int % 16)] + hex_lower(data.drop_first())
    }
}

/// The character for a value below 64 in the standard base64 alphabet:
/// A-Z, a-z, 0-9, `+` and `/`.
pub open spec fn base64_digit(n: int) -> char {
    if n < 26 {
        (65 + n) as char
    } else if n < 52 {
        (71 + n) as char
    } else if n < 62 {
        (n - 4) as char
    } else if n == 62 {
        '+'
    } else {
        '/'
    }
}

/// The standard (RFC 4648, padded) base64 text of a byte string: each group
/// of three bytes gives four characters of six bits each; a last group of
/// one or two bytes is filled with zero bits and padded with `=` to four.
pub open spec fn base64_standard(data: Seq<u8>) -> Seq<char>
    decreases data.len(),
{
    if data.len() == 0 {
        Seq::empty()
    } else if data.len() == 1 {
        let a = data[0] as int;
        seq![base64_digit(a / 4), base64_digit((a % 4) * 16), '=', '=']
    } else if data.len() == 2 {
        let a = data[0] as int;
        let b = data[1] as int;
        seq![base64_digit(a / 4), base64_digit((a % 4) * 16 + b / 16), base64_digit((b % 16) * 4), '=']
    } else {
        let a = data[0] as int;
        let b = data[1] as int;
        let c = data[2] as int;
        seq![
            base64_digit(a / 4),
            base64_digit((a % 4) * 16 + b / 16),
            base64_digit((b % 16) * 4 + c / 64),
            base64_digit(c % 64),
        ] + base64_standard(data.subrange(3, data.len() as int))
    }
}

/// `-`, `_` or `.`: the separators of a NEAR account id.
pub open spec fn is_id_separator(c: char) -> bool {
    c == '-' || c == '_' || c == '.'
}

/// A character a NEAR account id may hold: a-z, 0-9 or a separator.
pub open spec fn is_id_char(c: char) -> bool {
    ||| (97 <= c as u32 && c as u32 <= 122)
    ||| (48 <= c as u32 && c as u32 <= 57)
    ||| is_id_separator(c)
}

/// A well-formed NEAR account id: 2 to 64 bytes of a-z, 0-9 and separators,
/// neither starting nor ending with a separator, never two separators in a row.
pub open spec fn account_id_rule(s: Seq<char>) -> bool {
    &&& 2 <= encode_utf8(s).len() <= 64
    &&& forall|i: int| 0 <= i < s.len() ==> #[trigger] is_id_char(s[i])
    &&& !is_id_separator(s[0])
    &&& !is_id_separator(s.last())
    &&& forall|i: int|
        0 <= i < s.len() - 1 ==> !(#[trigger] is_id_separator(s[i]) && is_id_separator(s[i + 1]))
}

/// Calls `hex::encode`. Trusted: the result is the lowercase hexadecimal text
/// of `data`, as the crate documents it.
#[verifier::external_body]
pub(crate) fn hex_encode(data: &[u8]) -> (r: String)
    ensures
        r@ == hex_lower(data@),
{
    hex::encode(data)
}

/// Calls `base64::engine::general_purpose::STANDARD.encode`. Trusted: the
/// result is the standard, padded base64 text of `data`.
#[verifier::external_body]
pub(crate) fn base64_encode(data: &[u8]) -> (r: String)
    ensures
        r@ == base64_standard(data@),
{
    base64::engine::general_purpose::STANDARD.encode(data)
}

/// Calls `near_sdk::AccountId::validate`. Trusted: true exactly when the text
/// follows the account id rule stated in `account_id_rule`.
#[verifier::external_body]
pub(crate) fn validate_account_id(s: &str) -> (r: bool)
    ensures
        r == account_id_rule(s@),
{
    near_sdk::AccountId::validate(s).is_ok()
}

/// Calls `std::str::from_utf8`. Trusted: it succeeds exactly on valid UTF-8,
/// and the text it gives back has these bytes as its UTF-8 encoding.
#[verifier::external_body]
pub(crate) fn utf8_to_string(bytes: &[u8]) -> (r: Option<String>)
    ensures
        r is Some <==> valid_utf8(bytes@),
        r matches Some(s) ==> encode_utf8(s@) == bytes@,
{
    match std::str::from_utf8(bytes) {
        Ok(s) => Some(s.to_string()),
        Err(_) => None,
    }
}

} // verus!
