//! The two content digests of the pipeline: the primary (160-bit) checksum
//! that downloaded bytes are verified against, and the secondary (512-bit)
//! checksum recorded in the output manifest.

use crate::hex::{hex_encode_lower, hex_eq_ci, hex_lower, str_hex_eq_ci};
use sha1::Digest;
use vstd::prelude::*;

verus! {

/// The SHA-1 digest of a byte sequence: a function of the bytes alone.
pub uninterp spec fn sha1_of(b: Seq<u8>) -> Seq<u8>;

/// The SHA-512 digest of a byte sequence: a function of the bytes alone.
pub uninterp spec fn sha512_of(b: Seq<u8>) -> Seq<u8>;

/// Relies on `sha1::Sha1` through `Digest::digest`: the 20-byte SHA-1 digest
/// of the input, a function of the input bytes alone.
#[verifier::external_body]
fn sha1_digest(b: &Vec<u8>) -> (r: Vec<u8>)
    ensures
        r@ == sha1_of(b@),
        r@.len() == 20,
{
    sha1::Sha1::digest(b.as_slice()).to_vec()
}

/// Relies on `sha2::Sha512` through `Digest::digest`: the 64-byte SHA-512
/// digest of the input, a function of the input bytes alone.
#[verifier::external_body]
fn sha512_digest(b: &Vec<u8>) -> (r: Vec<u8>)
    ensures
        r@ == sha512_of(b@),
        r@.len() == 64,
{
    sha2::Sha512::digest(b.as_slice()).to_vec()
}

/// The lowercase hex rendering of the primary checksum of `bytes`.
pub fn sha1_hex(bytes: &Vec<u8>) -> (r: String)
    ensures
        r@ == hex_lower(sha1_of(bytes@)),
{
    let d = sha1_digest(bytes);
    hex_encode_lower(&d)
}

/// The lowercase hex rendering of the secondary checksum of `bytes`.
pub fn sha512_hex(bytes: &Vec<u8>) -> (r: String)
    ensures
        r@ == hex_lower(sha512_of(bytes@)),
{
    let d = sha512_digest(bytes);
    hex_encode_lower(&d)
}

/// Whether `expected` names the primary checksum of `bytes`: the lowercase
/// hex of the SHA-1 digest of `bytes`, compared case-insensitively.
pub open spec fn checksum_ok(bytes: Seq<u8>, expected: Seq<char>) -> bool {
    hex_eq_ci(hex_lower(sha1_of(bytes)), expected)
}

/// Verifies downloaded bytes against the manifest's primary checksum.
pub fn verify_bytes(bytes: &Vec<u8>, expected_sha1: &str) -> (r: bool)
    ensures
        r == checksum_ok(bytes@, expected_sha1@),
{
    let hex = sha1_hex(bytes);
    str_hex_eq_ci(hex.as_str(), expected_sha1)
}

} // verus!
