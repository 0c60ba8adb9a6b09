use sha2::Digest;
use vstd::prelude::*;

use crate::text::push_char;

verus! {

/// The SHA-256 digest of `data`.
pub uninterp spec fn sha256(data: Seq<u8>) -> Seq<u8>;

/// Trusted: calls `sha2::Sha256::digest`; its result is the digest of
/// `data`, and sha2 fixes its output size at 32 bytes (`OutputSize = U32`).
#[verifier::external_body]
fn sha256_digest(data: &[u8]) -> (r: Vec<u8>)
    ensures
        r@ == sha256(data@),
        r@.len() == 32,
{
    sha2::Sha256::digest(data).to_vec()
}

/// The lowercase hexadecimal digit of `n`, for `0 <= n < 16`.
pub open spec fn hex_digit(n: int) -> char {
    if n < 10 {
        (n + 48) as char
    } else {
        (n + 87) as char
    }
}

/// Whether `c` is a lowercase hexadecimal digit.
pub open spec fn is_lower_hex(c: char) -> bool {
    ('0' <= c && c <= '9') || ('a' <= c && c <= 'f')
}

/// The lowercase hexadecimal text of `bytes`: two digits per byte, the high
/// half first.
pub open spec fn hex_lower(bytes: Seq<u8>) -> Seq<char>
    decreases bytes.len(),
{
    if bytes.len() == 0 {
        seq![]
    } else {
        hex_lower(bytes.drop_last()) + seq![
            hex_digit(bytes.last() as int / 16),
            hex_digit(bytes.last() as int % 16),
        ]
    }
}

/// Whether `s` is the text of a SHA-256 digest: 64 lowercase hexadecimal digits.
pub open spec fn is_sha256_hex(s: Seq<char>) -> bool {
    s.len() == 64 && forall|i: int| 0 <= i < s.len() ==> is_lower_hex(#[trigger] s[i])
}

/// The stored form of a password: the SHA-256 digest of its UTF-8 bytes, in
/// lowercase hexadecimal.
pub open spec fn password_digest(password: Seq<char>) -> Seq<char> {
    hex_lower(sha256(vstd::utf8::encode_utf8(password)))
}

fn hex_digit_char(n: u8) -> (c: char)
    requires
        n < 16,
    ensures
        c == hex_digit(n as int),
{
    if n < 10 {
        (n + 48) as char
    } else {
        (n + 87) as char
    }
}

/// Formats `bytes` as lowercase hexadecimal.
pub fn to_hex_lower(bytes: &[u8]) -> (r: String)
    ensures
        r@ == hex_lower(bytes@),
{
    let mut r = String::new();
    let mut i: usize = 0;
    while i < bytes.len()
        invariant
            i <= bytes.len(),
            r@ == hex_lower(bytes@.take(i as int)),
        decreases bytes.len() - i,
    {
        let b = bytes[i];
        assert(bytes@.take(i + 1).drop_last() == bytes@.take(i as int));
        push_char(&mut r, hex_digit_char(b / 16));
        push_char(&mut r, hex_digit_char(b % 16));
        i = i + 1;
    }
    assert(bytes@.take(bytes.len() as int) == bytes@);
    r
}

/// The text of a byte sequence has two lowercase hexadecimal digits per byte.
pub proof fn lemma_hex_lower_shape(bytes: Seq<u8>)
    ensures
        hex_lower(bytes).len() == 2 * bytes.len(),
        forall|i: int| 0 <= i < hex_lower(bytes).len() ==> is_lower_hex(#[trigger] hex_lower(bytes)[i]),
    decreases bytes.len(),
{
    if bytes.len() > 0 {
        lemma_hex_lower_shape(bytes.drop_last());
    }
}

/// Hashes a password into its stored form.
pub fn hash_password(password: &str) -> (r: String)
    ensures
        r@ == password_digest(password@),
        is_sha256_hex(r@),
{
    let digest = sha256_digest(password.as_bytes());
    proof {
        lemma_hex_lower_shape(digest@);
    }
    to_hex_lower(digest.as_slice())
}

/// Whether `s` is the text of a random (version 4) UUID as uuid writes it:
/// 36 characters, hyphens at 8, 13, 18 and 23 and lowercase hexadecimal
/// digits elsewhere, the version digit `4` at 14 and the variant digit, one of
/// `8`, `9`, `a` or `b`, at 19.
pub open spec fn is_uuid_v4_text(s: Seq<char>) -> bool {
    &&& s.len() == 36
    &&& forall|i: int|
        0 <= i < 36 ==> if i == 8 || i == 13 || i == 18 || i == 23 {
            #[trigger] s[i] == '-'
        } else {
            is_lower_hex(s[i])
        }
    &&& s[14] == '4'
    &&& (s[19] == '8' || s[19] == '9' || s[19] == 'a' || s[19] == 'b')
}

/// Trusted: calls `uuid::Uuid::new_v4` and writes the identifier with its
/// `Display`, which uuid defines as the hyphenated lowercase form. The
/// identifier is drawn at random, so the contract states only its shape:
/// `new_v4` sets the version bits to 4 and the variant bits to `10`.
#[verifier::external_body]
fn new_uuid_v4_text() -> (r: String)
    ensures
        is_uuid_v4_text(r@),
{
    uuid::Uuid::new_v4().to_string()
}

/// The id of a request: the one that the client sent in its `X-Request-ID`
/// header, or a new random UUID where it sent none.
pub fn get_request_id(header: Option<&str>) -> (r: String)
    ensures
        match header {
            Some(h) => r@ == h@,
            None => is_uuid_v4_text(r@),
        },
{
    match header {
        Some(h) => String::from_str(h),
        None => new_uuid_v4_text(),
    }
}

} // verus!
