//! An unspent output as the blockchain collaborator reports it.

use vstd::prelude::*;

verus! {

/// One unspent output: value and confirmation count arrive as the
/// collaborator sends them, the value as a decimal string.
#[derive(Debug, Clone)]
pub struct UTXO {
    pub txid: String,
    pub vout: u32,
    pub value: String,
    pub height: Option<u64>,
    pub confirmations: u64,
}

} // verus!
