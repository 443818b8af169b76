//! An address summary from the blockchain collaborator, as plain data.

use vstd::prelude::*;

verus! {

/// One address's balances and transaction list as the collaborator
/// reports them.
#[derive(Debug, Clone)]
pub struct BlockchainAddress {
    pub page: u64,
    pub total_pages: u64,
    pub items_on_page: u64,
    pub address: String,
    pub balance: String,
    pub total_received: String,
    pub total_sent: String,
    pub unconfirmed_balance: String,
    pub unconfirmed_txs: u64,
    pub txs: u64,
    pub txids: Vec<String>,
}

} // verus!
