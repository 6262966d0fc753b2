//! Message authentication and text encodings: HMAC-SHA256 (from `hmac` and `sha2`),
//! lowercase hex (from `hex`), standard Base64 (from `base64`), form encoding (from
//! `serde_urlencoded`) and lossy UTF-8 decoding (from std).
use vstd::prelude::*;
use vstd::utf8::{encode_utf8, valid_utf8};

verus! {

/// The HMAC-SHA256 tag of `msg` under `key`.
pub uninterp spec fn hmac_sha256_tag(key: Seq<u8>, msg: Seq<u8>) -> Seq<u8>;

/// `Hmac::<Sha256>::new_from_slice(key)`, `update(msg)`, `finalize().into_bytes()`.
/// The contract names the tag and gives its length (SHA-256's 32 bytes); `new_from_slice`
/// accepts keys of every length, so the call does not fail.
#[verifier::external_body]
pub(crate) fn hmac_sha256(key: &[u8], msg: &[u8]) -> (tag: Vec<u8>)
    ensures
        tag@ == hmac_sha256_tag(key@, msg@),
        tag@.len() == 32,
{
    let mut mac = <hmac::Hmac<sha2::Sha256> as hmac::Mac>::new_from_slice(key).unwrap();
    hmac::Mac::update(&mut mac, msg);
    hmac::Mac::finalize(mac).into_bytes().to_vec()
}

pub open spec fn hex_digit(d: int) -> char {
    if d < 10 {
        crate::text::digit_char(d)
    } else if d == 10 {
        'a'
    } else if d == 11 {
        'b'
    } else if d == 12 {
        'c'
    } else if d == 13 {
        'd'
    } else if d == 14 {
        'e'
    } else {
        'f'
    }
}

/// Lowercase hex: two digits per byte, high half first.
pub open spec fn hex_lower(b: Seq<u8>) -> Seq<char>
    decreases b.len(),
{
    if b.len() == 0 {
        seq![]
    } else {
        hex_lower(b.drop_last()) + seq![hex_digit(b.last() as int / 16), hex_digit(b.last() as int % 16)]
    }
}

/// `hex::encode`: each byte as two lowercase hex digits.
#[verifier::external_body]
pub(crate) fn hex_encode(b: &[u8]) -> (s: String)
    ensures
        s@ == hex_lower(b@),
{
    hex::encode(b)
}

pub open spec fn base64_char(v: int) -> char {
    if v < 26 {
        ('A' as int + v) as char
    } else if v < 52 {
        ('a' as int + (v - 26)) as char
    } else if v < 62 {
        ('0' as int + (v - 52)) as char
    } else if v == 62 {
        '+'
    } else {
        '/'
    }
}

/// Standard Base64 with `=` padding: each three bytes become four characters.
pub open spec fn base64_standard(b: Seq<u8>) -> Seq<char>
    decreases b.len(),
{
    if b.len() == 0 {
        seq![]
    } else if b.len() == 1 {
        let x0 = b[0] as int;
        seq![base64_char(x0 / 4), base64_char((x0 % 4) * 16), '=', '=']
    } else if b.len() == 2 {
        let x0 = b[0] as int;
        let x1 = b[1] as int;
        seq![base64_char(x0 / 4), base64_char((x0 % 4) * 16 + x1 / 16), base64_char((x1 % 16) * 4), '=']
    } else {
        let x0 = b[0] as int;
        let x1 = b[1] as int;
        let x2 = b[2] as int;
        seq![
            base64_char(x0 / 4),
            base64_char((x0 % 4) * 16 + x1 / 16),
            base64_char((x1 % 16) * 4 + x2 / 64),
            base64_char(x2 % 64),
        ] + base64_standard(b.subrange(3, b.len() as int))
    }
}

/// `base64::engine::general_purpose::STANDARD.encode`.
#[verifier::external_body]
pub(crate) fn base64_encode(b: &[u8]) -> (s: String)
    ensures
        s@ == base64_standard(b@),
{
    base64::Engine::encode(&base64::engine::general_purpose::STANDARD, b)
}

pub open spec fn upper_hex_digit(d: int) -> char {
    if d < 10 {
        crate::text::digit_char(d)
    } else {
        ('A' as int + (d - 10)) as char
    }
}

/// A byte as form encoding writes it: unchanged for `*`, `-`, `.`, `_` and ASCII letters
/// and digits, `+` for a space, otherwise `%` and two uppercase hex digits.
pub open spec fn form_byte(b: u8) -> Seq<char> {
    if b == 0x2a || b == 0x2d || b == 0x2e || b == 0x5f || (0x30 <= b <= 0x39) || (0x41 <= b
        <= 0x5a) || (0x61 <= b <= 0x7a) {
        seq![b as char]
    } else if b == 0x20 {
        seq!['+']
    } else {
        seq!['%', upper_hex_digit(b as int / 16), upper_hex_digit(b as int % 16)]
    }
}

/// Form encoding of the UTF-8 bytes of a text.
pub open spec fn form_bytes(b: Seq<u8>) -> Seq<char>
    decreases b.len(),
{
    if b.len() == 0 {
        seq![]
    } else {
        form_bytes(b.drop_last()) + form_byte(b.last())
    }
}

pub open spec fn form_pair(p: (String, String)) -> Seq<char> {
    form_bytes(encode_utf8(p.0@)) + seq!['='] + form_bytes(encode_utf8(p.1@))
}

/// `name=value` pairs, form encoded, joined by `&`.
pub open spec fn form_text(pairs: Seq<(String, String)>) -> Seq<char>
    decreases pairs.len(),
{
    if pairs.len() == 0 {
        seq![]
    } else if pairs.len() == 1 {
        form_pair(pairs[0])
    } else {
        form_text(pairs.drop_last()) + seq!['&'] + form_pair(pairs.last())
    }
}

/// `serde_urlencoded::to_string` of a list of string pairs. Its serializer writes each
/// pair with `form_urlencoded`'s `append_pair`, and string pairs give it no error.
#[verifier::external_body]
pub(crate) fn form_urlencode(pairs: &Vec<(String, String)>) -> (s: String)
    ensures
        s@ == form_text(pairs@),
{
    serde_urlencoded::to_string(pairs).unwrap()
}

/// The bytes of `String::from_utf8_lossy(b)`: `b` itself when it is valid UTF-8,
/// otherwise `b` with each invalid sequence replaced by U+FFFD.
pub uninterp spec fn utf8_lossy_bytes(b: Seq<u8>) -> Seq<u8>;

/// `String::from_utf8_lossy(b)`, as bytes. The contract states what std documents for
/// valid input and names the result otherwise.
#[verifier::external_body]
pub(crate) fn utf8_lossy(b: &[u8]) -> (r: Vec<u8>)
    ensures
        r@ == utf8_lossy_bytes(b@),
        valid_utf8(b@) ==> r@ == b@,
{
    String::from_utf8_lossy(b).as_bytes().to_vec()
}

} // verus!
