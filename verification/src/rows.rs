//! Sink rows: the decoded, human-readable form of each event kind, as
//! the analytical store receives it.  Identifiers and signatures are
//! rendered in base58; every row carries the decode-time stamp in whole
//! seconds, not a source timestamp.

use crate::events::{
    AccountEventGhost, SlotStatus, SlotStatusEvent, TransactionEventGhost, UpdateAccountEvent,
    TransactionEvent,
};
use vstd::prelude::*;

verus! {

/// The base58 text of a byte string.
pub uninterp spec fn base58_of(b: Seq<u8>) -> Seq<char>;

/// Relies on bs58::encode(..).into_string(): the base58 text of a byte
/// string, a function of the bytes alone.
#[verifier::external_body]
fn base58_string(b: &[u8]) -> (r: String)
    ensures
        r@ == base58_of(b@),
{
    bs58::encode(b).into_string()
}

/// Relies on chrono::Utc::now for the decode-time stamp, truncated to
/// whole seconds; nothing is assumed of the value.
#[verifier::external_body]
pub fn now_seconds() -> i64 {
    chrono::Utc::now().timestamp()
}

/// One row of the accounts table.
#[derive(Debug, PartialEq)]
pub struct AccountRow {
    pub slot: u64,
    pub pubkey: String,
    pub lamports: u64,
    pub owner: String,
    pub executable: bool,
    pub rent_epoch: u64,
    pub data_len: u64,
    pub write_version: u64,
    pub txn_signature: Option<String>,
    pub created_at: i64,
}

/// One row of the slots table.
#[derive(Debug, PartialEq)]
pub struct SlotRow {
    pub slot: u64,
    pub parent: u64,
    pub status: String,
    pub created_at: i64,
}

/// One row of the transactions table.
#[derive(Debug, PartialEq)]
pub struct TransactionRow {
    pub signature: String,
    pub slot: u64,
    pub index: u64,
    pub is_vote: bool,
    pub is_successful: bool,
    pub fee: u64,
    pub compute_units_consumed: Option<u64>,
    pub num_instructions: u32,
    pub num_accounts: u32,
    pub created_at: i64,
}

/// Mathematical model of an account row.
pub struct AccountRowGhost {
    pub slot: u64,
    pub pubkey: Seq<char>,
    pub lamports: u64,
    pub owner: Seq<char>,
    pub executable: bool,
    pub rent_epoch: u64,
    pub data_len: u64,
    pub write_version: u64,
    pub txn_signature: Option<Seq<char>>,
    pub created_at: i64,
}

/// Mathematical model of a slot row.
pub struct SlotRowGhost {
    pub slot: u64,
    pub parent: u64,
    pub status: Seq<char>,
    pub created_at: i64,
}

/// Mathematical model of a transaction row.
pub struct TransactionRowGhost {
    pub signature: Seq<char>,
    pub slot: u64,
    pub index: u64,
    pub is_vote: bool,
    pub is_successful: bool,
    pub fee: u64,
    pub compute_units_consumed: Option<u64>,
    pub num_instructions: u32,
    pub num_accounts: u32,
    pub created_at: i64,
}

impl View for AccountRow {
    type V = AccountRowGhost;

    open spec fn view(&self) -> AccountRowGhost {
        AccountRowGhost {
            slot: self.slot,
            pubkey: self.pubkey@,
            lamports: self.lamports,
            owner: self.owner@,
            executable: self.executable,
            rent_epoch: self.rent_epoch,
            data_len: self.data_len,
            write_version: self.write_version,
            txn_signature: match &self.txn_signature {
                Some(s) => Some(s@),
                None => None,
            },
            created_at: self.created_at,
        }
    }
}

impl View for SlotRow {
    type V = SlotRowGhost;

    open spec fn view(&self) -> SlotRowGhost {
        SlotRowGhost {
            slot: self.slot,
            parent: self.parent,
            status: self.status@,
            created_at: self.created_at,
        }
    }
}

impl View for TransactionRow {
    type V = TransactionRowGhost;

    open spec fn view(&self) -> TransactionRowGhost {
        TransactionRowGhost {
            signature: self.signature@,
            slot: self.slot,
            index: self.index,
            is_vote: self.is_vote,
            is_successful: self.is_successful,
            fee: self.fee,
            compute_units_consumed: self.compute_units_consumed,
            num_instructions: self.num_instructions,
            num_accounts: self.num_accounts,
            created_at: self.created_at,
        }
    }
}

/// The human-readable name of a slot status.
pub open spec fn spec_status_name(s: SlotStatus) -> Seq<char> {
    match s {
        SlotStatus::Processed => "Processed"@,
        SlotStatus::Rooted => "Rooted"@,
        SlotStatus::Confirmed => "Confirmed"@,
        SlotStatus::FirstShredReceived => "FirstShredReceived"@,
        SlotStatus::Completed => "Completed"@,
        SlotStatus::CreatedBank => "CreatedBank"@,
        SlotStatus::Dead => "Dead"@,
        SlotStatus::Unknown => "Unknown"@,
    }
}

pub fn status_name(s: SlotStatus) -> (r: String)
    ensures
        r@ == spec_status_name(s),
{
    match s {
        SlotStatus::Processed => "Processed".to_owned(),
        SlotStatus::Rooted => "Rooted".to_owned(),
        SlotStatus::Confirmed => "Confirmed".to_owned(),
        SlotStatus::FirstShredReceived => "FirstShredReceived".to_owned(),
        SlotStatus::Completed => "Completed".to_owned(),
        SlotStatus::CreatedBank => "CreatedBank".to_owned(),
        SlotStatus::Dead => "Dead".to_owned(),
        SlotStatus::Unknown => "Unknown".to_owned(),
    }
}

/// The account row derived from an account event at `created_at`.
pub open spec fn spec_account_row(v: AccountEventGhost, created_at: i64) -> AccountRowGhost {
    AccountRowGhost {
        slot: v.slot,
        pubkey: base58_of(v.pubkey),
        lamports: v.lamports,
        owner: base58_of(v.owner),
        executable: v.executable,
        rent_epoch: v.rent_epoch,
        data_len: v.data.len() as u64,
        write_version: v.write_version,
        txn_signature: match v.txn_signature {
            Some(s) => Some(base58_of(s)),
            None => None,
        },
        created_at,
    }
}

/// The slot row derived from a slot-status event at `created_at`.
pub open spec fn spec_slot_row(v: SlotStatusEvent, created_at: i64) -> SlotRowGhost {
    SlotRowGhost {
        slot: v.slot,
        parent: v.parent,
        status: spec_status_name(v.status),
        created_at,
    }
}

/// The transaction row derived from a transaction event at `created_at`.
/// Without a result summary the transaction counts as successful with a
/// zero fee and no counts.
pub open spec fn spec_transaction_row(v: TransactionEventGhost, created_at: i64)
    -> TransactionRowGhost {
    TransactionRowGhost {
        signature: base58_of(v.signature),
        slot: v.slot,
        index: v.index,
        is_vote: v.is_vote,
        is_successful: match v.transaction_status_meta {
            Some(m) => !m.is_status_err,
            None => true,
        },
        fee: match v.transaction_status_meta {
            Some(m) => m.fee,
            None => 0,
        },
        compute_units_consumed: match v.transaction_status_meta {
            Some(m) => m.compute_units_consumed,
            None => None,
        },
        num_instructions: match v.transaction_status_meta {
            Some(m) => m.num_instructions,
            None => 0,
        },
        num_accounts: match v.transaction_status_meta {
            Some(m) => m.num_accounts,
            None => 0,
        },
        created_at,
    }
}

impl AccountRow {
    /// Build the row for one decoded account event.
    pub fn from_event(event: &UpdateAccountEvent, created_at: i64) -> (r: AccountRow)
        ensures
            r@ == spec_account_row(event@, created_at),
    {
        AccountRow {
            slot: event.slot,
            pubkey: base58_string(event.pubkey.as_slice()),
            lamports: event.lamports,
            owner: base58_string(event.owner.as_slice()),
            executable: event.executable,
            rent_epoch: event.rent_epoch,
            data_len: event.data.len() as u64,
            write_version: event.write_version,
            txn_signature: match &event.txn_signature {
                Some(sig) => Some(base58_string(sig.as_slice())),
                None => None,
            },
            created_at,
        }
    }
}

impl SlotRow {
    /// Build the row for one decoded slot-status event.
    pub fn from_event(event: &SlotStatusEvent, created_at: i64) -> (r: SlotRow)
        ensures
            r@ == spec_slot_row(*event, created_at),
    {
        SlotRow {
            slot: event.slot,
            parent: event.parent,
            status: status_name(event.status),
            created_at,
        }
    }
}

impl TransactionRow {
    /// Build the row for one decoded transaction event.
    pub fn from_event(event: &TransactionEvent, created_at: i64) -> (r: TransactionRow)
        ensures
            r@ == spec_transaction_row(event@, created_at),
    {
        let (is_successful, fee, num_instructions, num_accounts, compute_units_consumed) =
            match &event.transaction_status_meta {
            Some(meta) => (
                !meta.is_status_err,
                meta.fee,
                meta.num_instructions,
                meta.num_accounts,
                meta.compute_units_consumed,
            ),
            None => (true, 0u64, 0u32, 0u32, None),
        };
        TransactionRow {
            signature: base58_string(event.signature.as_slice()),
            slot: event.slot,
            index: event.index,
            is_vote: event.is_vote,
            is_successful,
            fee,
            compute_units_consumed,
            num_instructions,
            num_accounts,
            created_at,
        }
    }
}

} // verus!
