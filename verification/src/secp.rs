//! Trusted wrappers around the secp256k1 elliptic-curve library: ECDSA
//! signing over a 32-byte digest, and single-use keypair generation. The
//! signature and the derived public key are functions of the key material
//! alone, named by uninterpreted spec functions; only freshly drawn key
//! bytes are random.

use vstd::prelude::*;

use crate::encoding::all_hex_digits;
use crate::errors::TxError;

verus! {

/// The lowercase DER hex spelling of the ECDSA signature over a 32-byte
/// message digest with a 32-byte secret key (RFC 6979: deterministic in
/// the digest and the key).
pub uninterp spec fn sig_der_hex_of(msg: Seq<u8>, key: Seq<u8>) -> Seq<char>;

/// Whether 32 bytes form a valid secp256k1 secret key.
pub uninterp spec fn is_valid_seckey(key: Seq<u8>) -> bool;

/// The 66-character lowercase hex spelling of the compressed public key
/// derived from a secret key.
pub uninterp spec fn pubkey_hex_of(key: Seq<u8>) -> Seq<char>;

/// Relies on secp256k1::SecretKey::from_byte_array, which fails exactly
/// when the bytes are not a valid secret key, on SecretKey::sign_ecdsa
/// (RFC 6979 deterministic ECDSA), and on the Display form of
/// ecdsa::Signature, which spells the DER serialization as two lowercase
/// hex digits per byte; the DER serialization is held in a 72-byte buffer
/// (SerializedSignature), so the spelling has at most 144 characters.
#[verifier::external_body]
pub fn ecdsa_sign_der_hex(msg32: &Vec<u8>, seckey: &Vec<u8>) -> (r: Result<String, TxError>)
    requires
        msg32@.len() == 32,
        seckey@.len() == 32,
    ensures
        r is Ok <==> is_valid_seckey(seckey@),
        r is Ok ==> r->Ok_0@ == sig_der_hex_of(msg32@, seckey@),
        r is Ok ==> r->Ok_0@.len() % 2 == 0 && all_hex_digits(r->Ok_0@),
        r is Ok ==> r->Ok_0@.len() <= 144,
        r is Err ==> r->Err_0 == TxError::Signing,
{
    let mut k = [0u8; 32];
    k.copy_from_slice(seckey);
    let sk = match secp256k1::SecretKey::from_byte_array(k) {
        Ok(s) => s,
        Err(_) => return Err(TxError::Signing),
    };
    let mut m = [0u8; 32];
    m.copy_from_slice(msg32);
    let sig = sk.sign_ecdsa(secp256k1::Message::from_digest(m));
    Ok(format!("{}", sig))
}

/// Relies on secp256k1::generate_keypair, drawing from the rand crate's
/// thread-local CSPRNG: a freshly drawn keypair whose secret bytes are by
/// construction a valid secret key, and on the Display form of PublicKey,
/// which spells the 33-byte compressed serialization as 66 lowercase hex
/// digits, a function of the secret key alone.
#[verifier::external_body]
pub fn generate_keypair_hex() -> (r: (Vec<u8>, String))
    ensures
        r.0@.len() == 32,
        is_valid_seckey(r.0@),
        r.1@ == pubkey_hex_of(r.0@),
        r.1@.len() == 66,
        all_hex_digits(r.1@),
{
    let (sk, pk) = secp256k1::generate_keypair(&mut secp256k1::rand::rng());
    (sk.secret_bytes().to_vec(), format!("{}", pk))
}

} // verus!
