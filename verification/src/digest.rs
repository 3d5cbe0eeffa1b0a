//! Digests and their texts.

use vstd::prelude::*;

use base64::Engine;
use sha2::Digest;

use crate::text::{slice_text, to_chars};

verus! {

/// The SHA-256 digest of a byte sequence.
pub uninterp spec fn sha256(bytes: Seq<u8>) -> Seq<u8>;

/// The unpadded URL-safe base64 text of a byte sequence.
pub uninterp spec fn base64_url(bytes: Seq<u8>) -> Seq<char>;

/// `sha2::Sha256::digest`: 32 bytes that depend on the input alone.
#[verifier::external_body]
pub(crate) fn sha256_digest(bytes: &[u8]) -> (r: Vec<u8>)
    ensures
        r@ == sha256(bytes@),
        r@.len() == 32,
{
    sha2::Sha256::digest(bytes).to_vec()
}

/// `base64` with the URL-safe alphabet and no padding: four characters for every
/// three bytes, and one more than the bytes of an incomplete last group.
#[verifier::external_body]
pub(crate) fn encode_base64_url(bytes: &[u8]) -> (r: String)
    ensures
        r@ == base64_url(bytes@),
        r@.len() == (bytes@.len() / 3) * 4 + (if bytes@.len() % 3 == 0 {
            0nat
        } else {
            bytes@.len() % 3 + 1
        }),
{
    base64::engine::general_purpose::URL_SAFE_NO_PAD.encode(bytes)
}

/// `rand::RngCore::fill_bytes` on the generator of the thread: 32 bytes, of which
/// nothing more can be said.
#[verifier::external_body]
pub(crate) fn random_bytes() -> (r: Vec<u8>)
    ensures
        r@.len() == 32,
{
    let mut bytes = [0u8; 32];
    rand::RngCore::fill_bytes(&mut rand::thread_rng(), &mut bytes);
    bytes.to_vec()
}

/// The text is that of 32 bytes.
pub open spec fn is_token(token: Seq<char>) -> bool {
    exists|bytes: Seq<u8>| bytes.len() == 32 && token == #[trigger] base64_url(bytes)
}

/// A secret that is made for one worker: the text of 32 random bytes.
pub fn fresh_token() -> (r: String)
    ensures
        is_token(r@),
        r@.len() == 43,
{
    let bytes = random_bytes();
    encode_base64_url(&bytes)
}

/// The lower-case hexadecimal digit of a number below sixteen.
pub open spec fn hex_digit(n: int) -> char {
    if n < 10 {
        ((48 + n) as u8) as char
    } else {
        ((87 + n) as u8) as char
    }
}

/// Two lower-case hexadecimal digits per byte.
pub open spec fn hex_text(bytes: Seq<u8>) -> Seq<char>
    decreases bytes.len(),
{
    if bytes.len() == 0 {
        Seq::empty()
    } else {
        hex_text(bytes.drop_last()).push(hex_digit(bytes.last() as int / 16)).push(
            hex_digit(bytes.last() as int % 16),
        )
    }
}

fn digit_char(n: u8) -> (r: char)
    requires
        n < 16,
    ensures
        r == hex_digit(n as int),
{
    if n < 10 {
        (48 + n) as char
    } else {
        (87 + n) as char
    }
}

/// Two lower-case hexadecimal digits per byte.
pub fn to_hex(bytes: &Vec<u8>) -> (r: String)
    ensures
        r@ == hex_text(bytes@),
        r@.len() == 2 * bytes@.len(),
{
    let mut out = String::new();
    let mut i: usize = 0;
    assert(bytes@.take(0) =~= Seq::<u8>::empty());
    while i < bytes.len()
        invariant
            i <= bytes.len(),
            out@ == hex_text(bytes@.take(i as int)),
            out@.len() == 2 * i,
        decreases bytes.len() - i,
    {
        let b: u8 = bytes[i];
        assert(bytes@.take(i + 1).drop_last() =~= bytes@.take(i as int));
        out.push(digit_char(b / 16));
        out.push(digit_char(b % 16));
        i += 1;
    }
    assert(bytes@.take(i as int) =~= bytes@);
    out
}

/// The first `n` hexadecimal digits of the digest of a text's bytes.
pub open spec fn digest_prefix(value: Seq<char>, n: nat) -> Seq<char> {
    hex_text(sha256(vstd::utf8::encode_utf8(value))).take(n as int)
}

/// The first `n` hexadecimal digits of the digest of a text's bytes.
pub fn hash_prefix(value: &str, n: usize) -> (r: String)
    requires
        n <= 64,
    ensures
        r@ == digest_prefix(value@, n as nat),
        r@.len() == n,
{
    let digest = sha256_digest(value.as_bytes());
    let hex = to_hex(&digest);
    let chars = to_chars(&hex);
    let r = slice_text(&chars, 0, n);
    assert(r@ =~= digest_prefix(value@, n as nat));
    r
}

} // verus!
