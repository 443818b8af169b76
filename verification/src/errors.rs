//! The closed set of error kinds that construction and codec functions
//! return. Nothing is silently swallowed: every failure mode of the engine
//! maps to exactly one of these variants.

use vstd::prelude::*;

verus! {

#[derive(Clone, Copy, Debug, PartialEq, Eq, Structural)]
pub enum TxError {
    /// A hexadecimal string had an odd number of characters.
    OddLengthHex,
    /// A character outside 0-9, a-f, A-F stood where a hex digit was expected.
    InvalidHexDigit,
    /// A character outside the base58 alphabet stood in an address.
    InvalidBase58Char,
    /// The four checksum bytes of a base58check payload did not match.
    BadChecksum,
    /// The version byte of an address matched no recognized script template.
    UnsupportedAddressType,
    /// The selected inputs cannot cover the requested amount plus fee.
    InsufficientFunds,
    /// A value exceeds the byte width of its fixed-size field.
    SerializationLimit,
    /// Key material was invalid or the signing backend failed.
    Signing,
    /// The blockchain data source could not be reached.
    CollaboratorUnavailable,
}

impl TxError {
    /// A short human-readable description of the error.
    pub fn message(&self) -> &'static str {
        match self {
            TxError::OddLengthHex => "hex strings must have an even number of characters",
            TxError::InvalidHexDigit => "invalid hexadecimal digit",
            TxError::InvalidBase58Char => "invalid character found in base58 string",
            TxError::BadChecksum => "address checksum failed",
            TxError::UnsupportedAddressType => "parse address error",
            TxError::InsufficientFunds => "not enough coins",
            TxError::SerializationLimit => "value does not fit in its fixed-size field",
            TxError::Signing => "invalid key material",
            TxError::CollaboratorUnavailable => "blockchain data source unavailable",
        }
    }
}

} // verus!
