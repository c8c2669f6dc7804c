//! Identifiers, digests, encodings and headers: what the `uuid`, `sha2`, `hex`,
//! `base64`, `url`, `chrono-tz` and `axum` crates compute for this one.

use vstd::prelude::*;
use vstd::string::*;

verus! {

/// An identifier: the 128 bits of a UUID.
pub type Id = u128;

/// The identifier with every bit clear.
pub const NIL: u128 = 0;

/// The lower-case hexadecimal digit of value `d`.
pub open spec fn hex_digit(d: int) -> char {
    if 0 <= d < 10 {
        (48 + d) as char
    } else {
        (87 + d) as char
    }
}

/// The upper-case hexadecimal digit of value `d`.
pub open spec fn upper_hex_digit(d: int) -> char {
    if 0 <= d < 10 {
        (48 + d) as char
    } else {
        (55 + d) as char
    }
}

/// `bytes` in lower-case hexadecimal, two digits a byte.
pub open spec fn hex_text(bytes: Seq<u8>) -> Seq<char> {
    Seq::new(
        2 * bytes.len(),
        |i: int|
            if i % 2 == 0 {
                hex_digit(bytes[i / 2] as int / 16)
            } else {
                hex_digit(bytes[i / 2] as int % 16)
            },
    )
}

/// How many of the 32 digits of an identifier stand before place `i` of its
/// hyphenated form.
pub open spec fn digits_before(i: int) -> int {
    i - (if i > 23 {
        4int
    } else if i > 18 {
        3
    } else if i > 13 {
        2
    } else if i > 8 {
        1
    } else {
        0
    })
}

/// The digit at place `k` of the 32 hexadecimal digits of `id`, the highest
/// first.
pub open spec fn id_digit(id: Id, k: int) -> char {
    hex_digit((id as int / vstd::arithmetic::power::pow(16, (31 - k) as nat)) % 16)
}

/// The hyphenated form of `id`: its digits in lower case, in groups of 8, 4, 4,
/// 4 and 12.
pub open spec fn id_text(id: Id) -> Seq<char> {
    Seq::new(
        36,
        |i: int|
            if i == 8 || i == 13 || i == 18 || i == 23 {
                '-'
            } else {
                id_digit(id, digits_before(i))
            },
    )
}

/// The `Display` form of a `Uuid` of the `uuid` crate: the hyphenated form, which
/// `Uuid::parse_str` reads as the same identifier.
#[verifier::external_body]
pub(crate) fn uuid_text(id: Id) -> (r: String)
    ensures
        r@ == id_text(id),
        parsed_id(r@) == Some(id),
{
    uuid::Uuid::from_u128(id).to_string()
}

/// What `Uuid::parse_str` of the `uuid` crate reads in a text.
pub uninterp spec fn parsed_id(text: Seq<char>) -> Option<Id>;

/// `Uuid::parse_str` of the `uuid` crate, an error as `None`: its result is
/// named `parsed_id`.
#[verifier::external_body]
pub(crate) fn parse_id(text: &str) -> (r: Option<Id>)
    ensures
        r == parsed_id(text@),
{
    match uuid::Uuid::parse_str(text) {
        Ok(id) => Some(id.as_u128()),
        Err(_) => None,
    }
}

/// The SHA-256 digest of `bytes`.
pub uninterp spec fn sha256(bytes: Seq<u8>) -> Seq<u8>;

/// `Sha256::digest` of the `sha2` crate: its result, of 32 bytes, is named
/// `sha256`.
#[verifier::external_body]
fn sha256_digest(bytes: &[u8]) -> (r: Vec<u8>)
    ensures
        r@ == sha256(bytes@),
        r@.len() == 32,
{
    <sha2::Sha256 as sha2::Digest>::digest(bytes).to_vec()
}

/// `hex::encode` of the `hex` crate: two lower-case digits a byte.
#[verifier::external_body]
fn hex_encode(bytes: &Vec<u8>) -> (r: String)
    requires
        bytes.len() < usize::MAX / 4,
    ensures
        r@ == hex_text(bytes@),
{
    hex::encode(bytes)
}

/// The hexadecimal form of the SHA-256 digest of `bytes`.
pub open spec fn sha256_text(bytes: Seq<u8>) -> Seq<char> {
    hex_text(sha256(bytes))
}

/// The hexadecimal form of the SHA-256 digest of `bytes`.
pub fn sha256_hex(bytes: &[u8]) -> (r: String)
    ensures
        r@ == sha256_text(bytes@),
{
    hex_encode(&sha256_digest(bytes))
}

/// The key that a bearer token is stored under: the hexadecimal form of its
/// SHA-256 digest, so that the token itself is kept nowhere.
pub fn hash_cookie_value(token: &str) -> (r: String)
    ensures
        r@ == sha256_text(token.spec_bytes()),
{
    sha256_hex(token.as_bytes())
}

/// What `hex_digit` maps each value to can be told apart.
proof fn lemma_hex_digit_injective(a: int, b: int)
    requires
        0 <= a < 16,
        0 <= b < 16,
        hex_digit(a) == hex_digit(b),
    ensures
        a == b,
{
}

/// The two digits of the byte at `i`.
proof fn lemma_hex_text_at(bytes: Seq<u8>, i: int)
    requires
        0 <= i < bytes.len(),
    ensures
        hex_text(bytes)[2 * i] == hex_digit(bytes[i] as int / 16),
        hex_text(bytes)[2 * i + 1] == hex_digit(bytes[i] as int % 16),
{
    let j: int = 2 * i;
    assert(j / 2 == i && j % 2 == 0);
    assert((j + 1) / 2 == i && (j + 1) % 2 == 1);
    assert(hex_text(bytes)[j] == hex_digit(bytes[j / 2] as int / 16));
    assert(hex_text(bytes)[j + 1] == hex_digit(bytes[(j + 1) / 2] as int % 16));
}

/// Byte strings with one hexadecimal form are one byte string.
pub proof fn lemma_hex_text_injective(a: Seq<u8>, b: Seq<u8>)
    requires
        hex_text(a) == hex_text(b),
    ensures
        a == b,
{
    assert(hex_text(a).len() == 2 * a.len());
    assert(hex_text(b).len() == 2 * b.len());
    assert forall|i: int| 0 <= i < a.len() implies a[i] == b[i] by {
        lemma_hex_text_at(a, i);
        lemma_hex_text_at(b, i);
        lemma_hex_digit_injective(a[i] as int / 16, b[i] as int / 16);
        lemma_hex_digit_injective(a[i] as int % 16, b[i] as int % 16);
    }
    assert(a =~= b);
}

/// A hexadecimal form holds no colon.
pub proof fn lemma_hex_text_has_no_colon(bytes: Seq<u8>, i: int)
    requires
        0 <= i < hex_text(bytes).len(),
    ensures
        hex_text(bytes)[i] != ':',
{
    let d = bytes[i / 2] as int;
    assert(0 <= d < 256);
    assert(0 <= d / 16 < 16 && 0 <= d % 16 < 16);
}

/// The text that stands for `bytes` in base64 with the standard alphabet.
pub uninterp spec fn base64_text(bytes: Seq<u8>) -> Seq<char>;

/// What a base64 text with the standard alphabet stands for; `None` where it is
/// not one.
pub uninterp spec fn base64_bytes(text: Seq<char>) -> Option<Seq<u8>>;

/// `STANDARD.encode` of the `base64` crate: its result is named `base64_text`.
/// It cannot allocate the result for inputs near the address space's size.
#[verifier::external_body]
pub(crate) fn base64_encode(bytes: &Vec<u8>) -> (r: String)
    requires
        bytes.len() < usize::MAX / 4,
    ensures
        r@ == base64_text(bytes@),
{
    base64::Engine::encode(&base64::engine::general_purpose::STANDARD, bytes)
}

/// `STANDARD.decode` of the `base64` crate, an error as `None`: its result is
/// named `base64_bytes`.
#[verifier::external_body]
pub(crate) fn base64_decode(text: &str) -> (r: Option<Vec<u8>>)
    ensures
        r is Some <==> base64_bytes(text@) is Some,
        r is Some ==> r->0@ == base64_bytes(text@)->0,
{
    base64::Engine::decode(&base64::engine::general_purpose::STANDARD, text).ok()
}

/// Whether form encoding leaves `b` as it is.
pub open spec fn form_plain(b: u8) -> bool {
    ||| b == 42
    ||| b == 45
    ||| b == 46
    ||| 48 <= b <= 57
    ||| 65 <= b <= 90
    ||| b == 95
    ||| 97 <= b <= 122
}

/// The form encoding of one byte.
pub open spec fn form_byte(b: u8) -> Seq<char> {
    if form_plain(b) {
        seq![b as char]
    } else if b == 32 {
        seq!['+']
    } else {
        seq!['%', upper_hex_digit(b as int / 16), upper_hex_digit(b as int % 16)]
    }
}

/// The `application/x-www-form-urlencoded` form of `bytes`.
pub open spec fn form_text(bytes: Seq<u8>) -> Seq<char>
    decreases bytes.len(),
{
    if bytes.len() == 0 {
        Seq::empty()
    } else {
        form_text(bytes.drop_last()) + form_byte(bytes.last())
    }
}

/// `form_urlencoded::byte_serialize` of the `url` crate, its pieces joined:
/// letters, digits and `*-._` stay, a space becomes `+`, any other byte `%` and
/// two upper-case digits. It cannot allocate the result for inputs near the
/// address space's size.
#[verifier::external_body]
pub(crate) fn form_encode(bytes: &[u8]) -> (r: String)
    requires
        bytes.len() < usize::MAX / 8,
    ensures
        r@ == form_text(bytes@),
{
    url::form_urlencoded::byte_serialize(bytes).collect::<String>()
}

/// Whether `name` is one of the zones of the IANA time zone database that
/// `chrono-tz` carries.
pub uninterp spec fn known_zone(name: Seq<char>) -> bool;

/// `Tz::from_str` of `chrono-tz`: whether it succeeds is named `known_zone`.
#[verifier::external_body]
pub(crate) fn is_known_zone(name: &str) -> (r: bool)
    ensures
        r == known_zone(name@),
{
    <chrono_tz::Tz as std::str::FromStr>::from_str(name).is_ok()
}

/// `text` in lower case, by the Unicode mapping.
pub uninterp spec fn lower_case(text: Seq<char>) -> Seq<char>;

/// `str::to_lowercase` of the standard library: its result is named
/// `lower_case`.
#[verifier::external_body]
pub(crate) fn to_lower_case(text: &str) -> (r: String)
    ensures
        r@ == lower_case(text@),
{
    text.to_lowercase()
}

/// `text` in double quotes, with what has to be escaped in a Rust string literal
/// escaped.
pub uninterp spec fn quoted_text(text: Seq<char>) -> Seq<char>;

/// The `Debug` form of `str` of the standard library: its result is named
/// `quoted_text`.
#[verifier::external_body]
pub(crate) fn quote(text: &str) -> (r: String)
    ensures
        r@ == quoted_text(text@),
{
    format!("{:?}", text)
}

/// `bytes` read as UTF-8, with a mark in place of what is none.
pub uninterp spec fn lossy_text(bytes: Seq<u8>) -> Seq<char>;

/// `String::from_utf8_lossy` of the standard library: its result is named
/// `lossy_text`.
#[verifier::external_body]
pub(crate) fn read_lossy(bytes: &Vec<u8>) -> (r: String)
    ensures
        r@ == lossy_text(bytes@),
{
    String::from_utf8_lossy(bytes).into_owned()
}

/// Whether a byte may stand in a header that is read as text.
pub open spec fn is_visible(b: u8) -> bool {
    (32 <= b && b < 127) || b == 9
}

/// Whether all of `bytes` are visible.
pub open spec fn all_visible(bytes: Seq<u8>) -> bool {
    forall|i: int| 0 <= i < bytes.len() ==> is_visible(#[trigger] bytes[i])
}

/// The text whose characters are these ASCII bytes.
pub open spec fn ascii_text(bytes: Seq<u8>) -> Seq<char> {
    Seq::new(bytes.len(), |i: int| bytes[i] as char)
}

/// Reads the bytes of a header as text, with `HeaderValue::from_bytes` and
/// `HeaderValue::to_str`: this gives the text where each byte is a tab, or at least
/// 32 and below 127, and nothing otherwise.
#[verifier::external_body]
pub(crate) fn header_text(bytes: &[u8]) -> (r: Option<String>)
    ensures
        match r {
            Some(t) => all_visible(bytes@) && t@ == ascii_text(bytes@),
            None => !all_visible(bytes@),
        },
{
    let value = axum::http::HeaderValue::from_bytes(bytes).ok()?;
    value.to_str().ok().map(String::from)
}

/// The text of a header, where there is one that can be read as text.
pub open spec fn text_of_header(header: Option<&[u8]>) -> Option<Seq<char>> {
    match header {
        Some(h) => if all_visible(h@) {
            Some(ascii_text(h@))
        } else {
            None
        },
        None => None,
    }
}

/// The text of a header, where there is one that can be read as text.
pub fn read_header(header: Option<&[u8]>) -> (r: Option<String>)
    ensures
        match r {
            Some(t) => text_of_header(header) == Some(t@),
            None => text_of_header(header) is None,
        },
{
    match header {
        Some(h) => header_text(h),
        None => None,
    }
}

} // verus!
