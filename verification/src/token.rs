//! The token codec: unguessable tokens, and the one-way hash under which a
//! refresh token is stored.
use crate::ident::hex_digit;
use rand::Rng;
use sha2::{Digest, Sha256};
use vstd::prelude::*;

verus! {

/// How many random bytes a token is made of.
pub const TOKEN_BYTES: usize = 32;

/// Bytes as lower-case hex, two digits for each byte, the high one first.
pub open spec fn lower_hex(bytes: Seq<u8>) -> Seq<char> {
    Seq::new(
        2 * bytes.len(),
        |i: int|
            if i % 2 == 0 {
                hex_digit(bytes[i / 2] as int / 16)
            } else {
                hex_digit(bytes[i / 2] as int % 16)
            },
    )
}

/// The SHA-256 digest of `data`, as `sha2::Sha256` computes it.
pub uninterp spec fn sha256_digest(data: Seq<u8>) -> Seq<u8>;

/// Whether `text` is a token: the hex form of 32 bytes.
pub open spec fn is_token(text: Seq<char>) -> bool {
    exists|bytes: Seq<u8>| bytes.len() == TOKEN_BYTES && text == #[trigger] lower_hex(bytes)
}

/// The hash under which the refresh token `token` is stored: the hex form
/// of the SHA-256 digest of its bytes.
pub open spec fn token_hash(token: Seq<char>) -> Seq<char> {
    lower_hex(sha256_digest(vstd::utf8::encode_utf8(token)))
}

/// A token is 64 characters long.
pub proof fn token_length(text: Seq<char>)
    requires
        is_token(text),
    ensures
        text.len() == 64,
{
}

/// Hex digits are no white space, so a token is never blank.
pub proof fn token_is_not_blank(text: Seq<char>)
    requires
        is_token(text),
    ensures
        !crate::text::blank(text),
{
    let bytes = choose|bytes: Seq<u8>| bytes.len() == TOKEN_BYTES && text == #[trigger] lower_hex(bytes);
    assert(text[0] == hex_digit(bytes[0] as int / 16));
}

/// One random number below 256, by `gen_range(0..256)` on
/// `rand::thread_rng()`. Nothing is claimed but the range. (`thread_rng` does
/// not return where the operating system gives it no seed.)
#[verifier::external_body]
pub(crate) fn random_below_256() -> (n: i32)
    ensures
        0 <= n < 256,
{
    rand::thread_rng().gen_range(0..256)
}

/// Bytes as lower-case hex, by `hex::encode`.
#[verifier::external_body]
pub(crate) fn hex_encode(data: &[u8]) -> (text: String)
    ensures
        text@ == lower_hex(data@),
{
    hex::encode(data)
}

/// The SHA-256 digest of `data`, by `sha2::Sha256`: `new`, one `update`
/// with all of `data`, `finalize`. The contract gives the digest a name.
#[verifier::external_body]
pub(crate) fn sha256(data: &[u8]) -> (digest: Vec<u8>)
    ensures
        digest@ == sha256_digest(data@),
{
    let mut hasher = Sha256::new();
    hasher.update(data);
    hasher.finalize().to_vec()
}

/// A fresh token: 32 random bytes in hex.
pub fn generate_random_token() -> (token: String)
    ensures
        is_token(token@),
{
    let mut random_bytes: Vec<u8> = Vec::new();
    while random_bytes.len() < TOKEN_BYTES
        invariant
            random_bytes.len() <= TOKEN_BYTES,
        decreases TOKEN_BYTES - random_bytes.len(),
    {
        let n: i32 = random_below_256();
        random_bytes.push(n as u8);
    }
    hex_encode(random_bytes.as_slice())
}

/// The hash under which a refresh token is stored.
pub fn hash_token(token: &str) -> (hash: String)
    ensures
        hash@ == token_hash(token@),
{
    let digest = sha256(token.as_bytes());
    hex_encode(digest.as_slice())
}

} // verus!
