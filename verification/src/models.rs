//! Summary records of chain state, kept for reporting surfaces around
//! the pipeline.

use vstd::prelude::*;

verus! {

/// A one-line account summary.
#[derive(Debug)]
pub struct AccountInfo {
    pub pubkey: String,
    pub lamports: u64,
    pub owner: String,
    pub executable: bool,
    pub rent_epoch: u64,
    pub slot: u64,
}

/// A one-line transaction summary.
#[derive(Debug)]
pub struct TransactionInfo {
    pub signature: String,
    pub is_vote: bool,
    pub slot: u64,
    pub fee: u64,
    pub status: String,
    pub log_messages: Option<Vec<String>>,
}

/// A one-line block summary.
#[derive(Debug)]
pub struct BlockInfo {
    pub slot: u64,
    pub blockhash: String,
    pub parent_slot: u64,
    pub block_time: Option<i64>,
    pub block_height: Option<u64>,
}

} // verus!
