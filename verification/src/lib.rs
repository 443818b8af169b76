//! A Bitcoin-style raw transaction construction and signing engine.
//!
//! The crate builds spendable transaction structures from unspent outputs,
//! serializes them to the exact byte layout required by the network (legacy
//! and segregated-witness forms), computes signature-hash preimages, signs
//! with ECDSA, and assembles time-locked "vault" scripts used for a
//! delayed-inheritance ("will") mechanism.

pub mod base58;
pub mod blockchain_address;
pub mod blockchain_info;
pub mod blockchain_status;
pub mod blockchain_transaction;
pub mod blockchain_utxo;
pub mod create_transaction;
pub mod encoding;
pub mod errors;
pub mod hashes;
pub mod script;
pub mod secp;
pub mod strutil;
pub mod traits;
pub mod will_components;
pub mod transaction_parts;
