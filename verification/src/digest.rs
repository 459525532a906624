//! SHA-256 digests, written in hexadecimal.

use sha2::{Digest, Sha256};
use vstd::prelude::*;
use vstd::string::*;

verus! {

/// The SHA-256 digest of `data`.
pub uninterp spec fn sha256_digest(data: Seq<u8>) -> Seq<u8>;

/// The hexadecimal digit for a number below sixteen, in lower case.
pub open spec fn hex_digit(nibble: int) -> char {
    if nibble < 10 {
        (48 + nibble) as char
    } else {
        (87 + nibble) as char
    }
}

/// `bytes` in hexadecimal: two digits for each byte, the high half first.
pub open spec fn hex_of(bytes: Seq<u8>) -> Seq<char> {
    Seq::new(
        2 * bytes.len(),
        |i: int|
            hex_digit(
                if i % 2 == 0 {
                    bytes[i / 2] as int / 16
                } else {
                    bytes[i / 2] as int % 16
                },
            ),
    )
}

/// Calls sha2's `Sha256::digest`.
///
/// Trusted: the result is the digest of the input, a function of the input alone, and is
/// 32 bytes long.
#[verifier::external_body]
fn sha256(data: &[u8]) -> (digest: Vec<u8>)
    ensures
        digest@ == sha256_digest(data@),
        digest@.len() == 32,
{
    Sha256::digest(data).to_vec()
}

/// Calls hex's `encode`.
///
/// Trusted: each byte is written as two hexadecimal digits in lower case, the high half
/// first.
#[verifier::external_body]
fn hex_encode(bytes: &[u8]) -> (text: String)
    ensures
        text@ == hex_of(bytes@),
{
    hex::encode(bytes)
}

/// The hexadecimal writing of a digest.
pub fn digest_text(digest: &Vec<u8>) -> (text: String)
    ensures
        text@ == hex_of(digest@),
        text@.len() == 2 * digest@.len(),
{
    hex_encode(digest.as_slice())
}

/// The SHA-256 digest of `text`, in hexadecimal: 64 digits.
pub fn sha256_hex(text: &str) -> (id: String)
    ensures
        id@ == hex_of(sha256_digest(vstd::utf8::encode_utf8(text@))),
        id@.len() == 64,
{
    let digest = sha256(text.as_bytes());
    digest_text(&digest)
}

} // verus!
