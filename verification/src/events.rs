//! The three event kinds carried over the wire, and the tagged-union
//! envelope used in wrapped mode.

use vstd::prelude::*;

verus! {

/// Status of a slot as reported by the event source.  `Unknown` stands for
/// a status byte that a newer producer may emit and this build does not
/// recognize.
#[derive(Clone, Copy, Debug, PartialEq, Eq, Structural)]
pub enum SlotStatus {
    Processed,
    Rooted,
    Confirmed,
    FirstShredReceived,
    Completed,
    CreatedBank,
    Dead,
    Unknown,
}

/// A change to one account at one slot.
#[derive(Clone, Debug, PartialEq, Eq)]
pub struct UpdateAccountEvent {
    pub slot: u64,
    pub pubkey: Vec<u8>,
    pub lamports: u64,
    pub owner: Vec<u8>,
    pub executable: bool,
    pub rent_epoch: u64,
    pub data: Vec<u8>,
    pub write_version: u64,
    pub txn_signature: Option<Vec<u8>>,
}

/// A slot-status transition.
#[derive(Clone, Copy, Debug, PartialEq, Eq, Structural)]
pub struct SlotStatusEvent {
    pub slot: u64,
    pub parent: u64,
    pub status: SlotStatus,
}

/// Result summary of one processed transaction.
#[derive(Clone, Copy, Debug, PartialEq, Eq, Structural)]
pub struct TransactionStatusMeta {
    pub is_status_err: bool,
    pub fee: u64,
    pub num_instructions: u32,
    pub num_accounts: u32,
    pub compute_units_consumed: Option<u64>,
}

/// One transaction observed in a block.
#[derive(Clone, Debug, PartialEq, Eq)]
pub struct TransactionEvent {
    pub signature: Vec<u8>,
    pub is_vote: bool,
    pub transaction_status_meta: Option<TransactionStatusMeta>,
    pub slot: u64,
    pub index: u64,
}

/// Exactly one event kind, as carried inside the envelope.
#[derive(Clone, Debug, PartialEq, Eq)]
pub enum EventMessage {
    Account(UpdateAccountEvent),
    Slot(SlotStatusEvent),
    Transaction(TransactionEvent),
}

/// Wrapped-mode envelope: a tagged union holding at most one event.
#[derive(Clone, Debug, PartialEq, Eq)]
pub struct MessageWrapper {
    pub event_message: Option<EventMessage>,
}

/// Mathematical model of an account event: byte fields as sequences.
pub struct AccountEventGhost {
    pub slot: u64,
    pub pubkey: Seq<u8>,
    pub lamports: u64,
    pub owner: Seq<u8>,
    pub executable: bool,
    pub rent_epoch: u64,
    pub data: Seq<u8>,
    pub write_version: u64,
    pub txn_signature: Option<Seq<u8>>,
}

/// Mathematical model of a transaction event.
pub struct TransactionEventGhost {
    pub signature: Seq<u8>,
    pub is_vote: bool,
    pub transaction_status_meta: Option<TransactionStatusMeta>,
    pub slot: u64,
    pub index: u64,
}

/// Mathematical model of the envelope contents.
pub enum EventMessageGhost {
    Account(AccountEventGhost),
    Slot(SlotStatusEvent),
    Transaction(TransactionEventGhost),
}

impl View for UpdateAccountEvent {
    type V = AccountEventGhost;

    open spec fn view(&self) -> AccountEventGhost {
        AccountEventGhost {
            slot: self.slot,
            pubkey: self.pubkey@,
            lamports: self.lamports,
            owner: self.owner@,
            executable: self.executable,
            rent_epoch: self.rent_epoch,
            data: self.data@,
            write_version: self.write_version,
            txn_signature: match self.txn_signature {
                Some(s) => Some(s@),
                None => None,
            },
        }
    }
}

impl View for TransactionEvent {
    type V = TransactionEventGhost;

    open spec fn view(&self) -> TransactionEventGhost {
        TransactionEventGhost {
            signature: self.signature@,
            is_vote: self.is_vote,
            transaction_status_meta: self.transaction_status_meta,
            slot: self.slot,
            index: self.index,
        }
    }
}

impl View for EventMessage {
    type V = EventMessageGhost;

    open spec fn view(&self) -> EventMessageGhost {
        match self {
            EventMessage::Account(a) => EventMessageGhost::Account(a@),
            EventMessage::Slot(s) => EventMessageGhost::Slot(*s),
            EventMessage::Transaction(t) => EventMessageGhost::Transaction(t@),
        }
    }
}

impl UpdateAccountEvent {
    pub fn new(
        slot: u64,
        pubkey: Vec<u8>,
        lamports: u64,
        owner: Vec<u8>,
        executable: bool,
        rent_epoch: u64,
        data: Vec<u8>,
        write_version: u64,
        txn_signature: Option<Vec<u8>>,
    ) -> (r: Self)
        ensures
            r == (UpdateAccountEvent {
                slot,
                pubkey,
                lamports,
                owner,
                executable,
                rent_epoch,
                data,
                write_version,
                txn_signature,
            }),
    {
        Self { slot, pubkey, lamports, owner, executable, rent_epoch, data, write_version, txn_signature }
    }
}

impl SlotStatusEvent {
    pub fn new(slot: u64, parent: u64, status: SlotStatus) -> (r: Self)
        ensures
            r == (SlotStatusEvent { slot, parent, status }),
    {
        Self { slot, parent, status }
    }
}

impl TransactionEvent {
    pub fn new(
        signature: Vec<u8>,
        is_vote: bool,
        transaction_status_meta: Option<TransactionStatusMeta>,
        slot: u64,
        index: u64,
    ) -> (r: Self)
        ensures
            r == (TransactionEvent { signature, is_vote, transaction_status_meta, slot, index }),
    {
        Self { signature, is_vote, transaction_status_meta, slot, index }
    }
}

} // verus!
