//! Trusted wrappers around the cryptographic hash functions the engine
//! uses: SHA-256, double SHA-256 ("sha256d") and HASH160 (SHA-256 followed
//! by RIPEMD-160). The digests are named by uninterpreted spec functions:
//! each is a function of the input bytes alone.

use vstd::prelude::*;

use sha2::Digest;

verus! {

/// The 32-byte SHA-256 digest of a byte sequence.
pub uninterp spec fn sha256_of(b: Seq<u8>) -> Seq<u8>;

/// The 20-byte RIPEMD-160 digest of a byte sequence.
pub uninterp spec fn ripemd160_of(b: Seq<u8>) -> Seq<u8>;

/// Relies on sha2::Sha256 (through the Digest trait): returns the SHA-256
/// digest of the input, 32 bytes, a function of the input alone.
#[verifier::external_body]
pub fn sha256_bytes(b: &Vec<u8>) -> (r: Vec<u8>)
    ensures
        r@ == sha256_of(b@),
        r@.len() == 32,
{
    sha2::Sha256::digest(b).to_vec()
}

/// Relies on bitcoin::hashes::sha256d::Hash::hash: returns SHA-256 applied
/// twice to the input ("Output of the SHA256d hash function", computed by
/// hashing the SHA-256 digest again), 32 bytes. Both this crate's SHA-256
/// sources implement the same FIPS 180-4 function, so the digest is named
/// by the same spec function that the sha2 wrapper uses.
#[verifier::external_body]
pub fn sha256d_bytes(b: &Vec<u8>) -> (r: Vec<u8>)
    ensures
        r@ == sha256_of(sha256_of(b@)),
        r@.len() == 32,
{
    bitcoin::hashes::Hash::to_byte_array(<bitcoin::hashes::sha256d::Hash as bitcoin::hashes::Hash>::hash(b)).to_vec()
}

/// Relies on bitcoin::hashes::hash160::Hash::hash: returns RIPEMD-160 of
/// the SHA-256 digest of the input ("RIPEMD160(SHA256)"), 20 bytes.
#[verifier::external_body]
pub fn hash160_bytes(b: &Vec<u8>) -> (r: Vec<u8>)
    ensures
        r@ == ripemd160_of(sha256_of(b@)),
        r@.len() == 20,
{
    bitcoin::hashes::Hash::to_byte_array(<bitcoin::hashes::hash160::Hash as bitcoin::hashes::Hash>::hash(b)).to_vec()
}

} // verus!
