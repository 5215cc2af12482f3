//! Client tokens and their hashes.
//!
//! A token is 64 random bytes written as 128 hexadecimal digits. A server
//! keeps only the SHA-512 of the token's bytes, written the same way.

use vstd::prelude::*;
use crate::encoding::{hex_decode, hex_decoded, hex_encoded, hex_text, is_hex, is_lower_hex};
use rand::RngCore;
use sha2::Digest;

verus! {

/// Number of random bytes in a token.
pub const TOKEN_SIZE: usize = 64;

/// Number of bytes in a SHA-512 digest.
pub const DIGEST_SIZE: usize = 64;

/// Name of the request header that carries the token.
pub const METADATA_KEY: &'static str = "authorization";

pub type TokenHash = String;

pub type Token = String;

#[derive(Debug, Clone, Copy, PartialEq, Eq, Structural)]
pub enum Error {
    /// The token is not an even number of hexadecimal digits.
    FailedToParseToken,
}

impl Error {
    pub fn message(&self) -> (s: String)
        ensures
            s@ == "failed to parse the token"@,
    {
        "failed to parse the token".to_string()
    }
}

/// The SHA-512 digest of `data`.
pub uninterp spec fn sha512(data: Seq<u8>) -> Seq<u8>;

/// `Sha512::digest` of the sha2 crate: the SHA-512 of the bytes, which is 64 bytes long.
#[verifier::external_body]
fn sha512_digest(data: &[u8]) -> (r: Vec<u8>)
    ensures
        r@ == sha512(data@),
        r@.len() == DIGEST_SIZE,
{
    sha2::Sha512::digest(data).to_vec()
}

/// `fill_bytes` on rand's thread-local generator: overwrites the buffer with
/// random bytes. Nothing is known of them.
#[verifier::external_body]
fn fill_random(buffer: &mut [u8; TOKEN_SIZE]) {
    rand::thread_rng().fill_bytes(buffer)
}

/// The shape of a token and of a token hash: 128 lowercase hexadecimal digits.
pub open spec fn is_token(text: Seq<char>) -> bool {
    &&& text.len() == 2 * TOKEN_SIZE
    &&& is_lower_hex(text)
    &&& is_hex(text)
}

/// The hash that a server stores for a token that decodes.
pub open spec fn token_hash(token: Seq<char>) -> Seq<char> {
    hex_encoded(sha512(hex_decoded(token)))
}

/// What hashing gives for any text: the hash when the text decodes, the error otherwise.
pub open spec fn hashed(token: Seq<char>) -> Result<Seq<char>, Error> {
    if is_hex(token) {
        Ok(token_hash(token))
    } else {
        Err(Error::FailedToParseToken)
    }
}

/// Hashes a hex-encoded token: SHA-512 over the decoded bytes, hex-encoded.
pub fn hash_token(token: &str) -> (r: Result<TokenHash, Error>)
    ensures
        r is Ok <==> is_hex(token@),
        r matches Ok(hash) ==> hash@ == token_hash(token@) && is_token(hash@),
        r matches Err(e) ==> e == Error::FailedToParseToken,
        (match r {
            Ok(hash) => Ok(hash@),
            Err(e) => Err(e),
        }) == hashed(token@),
{
    match hex_decode(token) {
        Ok(bytes) => {
            let digest = sha512_digest(bytes.as_slice());
            Ok(hex_text(digest.as_slice()))
        },
        Err(_) => Err(Error::FailedToParseToken),
    }
}

/// Generates a fresh token: 64 bytes from the thread-local generator, hex-encoded.
pub fn generate_token() -> (token: Token)
    ensures
        is_token(token@),
{
    let mut bytes = [0u8; TOKEN_SIZE];
    fill_random(&mut bytes);
    hex_text(bytes.as_slice())
}

/// Every token that `generate_token` can give hashes without error.
pub proof fn lemma_token_hashes(token: Seq<char>)
    requires
        is_token(token),
    ensures
        hashed(token) == Ok::<Seq<char>, Error>(token_hash(token)),
{
}

} // verus!
