//! The bundle a will-generation call produces: the single-use keypair, the
//! encoded relative locktime, the CHECKSEQUENCEVERIFY witness script and
//! the derived P2WSH locking script.

use vstd::prelude::*;

use crate::encoding::u16_le;
use crate::errors::TxError;

verus! {

/// A timelock vault's components. The single-use secret key is held as its
/// 32 raw bytes and the public key as its compressed hex spelling.
#[derive(Debug, Clone)]
pub struct TimelockComponents {
    pub single_use_private_key: Vec<u8>,
    pub single_use_public_key: String,
    pub sequence_locktime: Vec<u8>,
    pub sequence_flags: Vec<u8>,
    pub witness_script: Vec<u8>,
    pub locking_script: Vec<u8>,
}

impl TimelockComponents {
    /// Bundles the components; the sequence field is the locktime in two
    /// little-endian bytes followed by two zero flag bytes.
    pub fn new(
        single_use_private_key: Vec<u8>,
        single_use_public_key: String,
        locktime: u16,
        witness_script: Vec<u8>,
        locking_script: Vec<u8>,
    ) -> (r: Result<Self, TxError>)
        ensures
            r is Ok,
            r->Ok_0.single_use_private_key == single_use_private_key,
            r->Ok_0.single_use_public_key == single_use_public_key,
            r->Ok_0.sequence_locktime@ == u16_le(locktime),
            r->Ok_0.sequence_flags@ == seq![0u8, 0u8],
            r->Ok_0.witness_script == witness_script,
            r->Ok_0.locking_script == locking_script,
    {
        let mut flags: Vec<u8> = Vec::new();
        flags.push(0u8);
        flags.push(0u8);
        proof {
            assert(flags@ =~= seq![0u8, 0u8]);
        }
        Ok(
            TimelockComponents {
                single_use_private_key,
                single_use_public_key,
                sequence_locktime: crate::encoding::u16_le_vec(locktime),
                sequence_flags: flags,
                witness_script,
                locking_script,
            },
        )
    }

    /// The input sequence field that redeems this vault: the encoded
    /// relative locktime followed by the flag bytes.
    pub fn sequence(&self) -> (r: Vec<u8>)
        ensures
            r@ == self.sequence_locktime@ + self.sequence_flags@,
    {
        let mut result: Vec<u8> = Vec::new();
        crate::strutil::push_bytes(&mut result, &self.sequence_locktime);
        crate::strutil::push_bytes(&mut result, &self.sequence_flags);
        result
    }
}

} // verus!
