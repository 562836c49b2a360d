//! The event wire protocol: two mutually exclusive encodings of the three
//! event kinds.
//!
//! In wrapped mode every event is carried inside a one-byte-tagged
//! envelope; in unwrapped mode each kind has its own raw schema with a
//! distinct leading schema byte.  The schema bytes of the two modes are
//! disjoint, so a payload parses under at most one reading and the decode
//! fallback (envelope first, then the raw schema selected by the topic
//! name) is unambiguous.

use crate::events::{
    AccountEventGhost, EventMessage, EventMessageGhost, MessageWrapper, SlotStatus,
    SlotStatusEvent, TransactionEvent, TransactionEventGhost, TransactionStatusMeta,
    UpdateAccountEvent,
};
use crate::topic::{
    account_word, contains_sub, slot_word, topic_matches_account, topic_matches_slot,
    topic_matches_transaction, transaction_word,
};
use crate::wire::{
    enc_bool, enc_bytes, enc_opt_bytes, enc_opt_u64, enc_u32, enc_u64, push_bool, push_byte,
    push_bytes, push_opt_bytes, push_opt_u64, push_u32, push_u64, rd_bool, rd_byte, rd_bytes,
    rd_opt_bytes, rd_opt_u64, rd_u32, rd_u64, read_bool, read_byte, read_bytes, read_opt_bytes,
    read_opt_u64, read_u32, read_u64,
};
use vstd::prelude::*;

verus! {

/// Envelope tag for an account event (the letter `A`).
pub const WRAPPED_ACCOUNT_TAG: u8 = 0x41;

/// Envelope tag for a slot-status event (the letter `S`).
pub const WRAPPED_SLOT_TAG: u8 = 0x53;

/// Envelope tag for a transaction event (the letter `T`).
pub const WRAPPED_TRANSACTION_TAG: u8 = 0x54;

/// Envelope tag for an envelope that carries no event.
pub const EMPTY_ENVELOPE_TAG: u8 = 0x00;

/// Schema byte of the raw account encoding (the letter `a`).
pub const RAW_ACCOUNT_TAG: u8 = 0x61;

/// Schema byte of the raw slot-status encoding (the letter `s`).
pub const RAW_SLOT_TAG: u8 = 0x73;

/// Schema byte of the raw transaction encoding (the letter `t`).
pub const RAW_TRANSACTION_TAG: u8 = 0x74;

// ---------------------------------------------------------------------
// Slot status <-> byte.
// ---------------------------------------------------------------------
pub open spec fn status_to_byte(s: SlotStatus) -> u8 {
    match s {
        SlotStatus::Processed => 0,
        SlotStatus::Rooted => 1,
        SlotStatus::Confirmed => 2,
        SlotStatus::FirstShredReceived => 3,
        SlotStatus::Completed => 4,
        SlotStatus::CreatedBank => 5,
        SlotStatus::Dead => 6,
        SlotStatus::Unknown => 7,
    }
}

/// A status byte that no current producer emits decodes to `Unknown`.
pub open spec fn status_of_byte(b: u8) -> SlotStatus {
    if b == 0 {
        SlotStatus::Processed
    } else if b == 1 {
        SlotStatus::Rooted
    } else if b == 2 {
        SlotStatus::Confirmed
    } else if b == 3 {
        SlotStatus::FirstShredReceived
    } else if b == 4 {
        SlotStatus::Completed
    } else if b == 5 {
        SlotStatus::CreatedBank
    } else if b == 6 {
        SlotStatus::Dead
    } else {
        SlotStatus::Unknown
    }
}

/// Law: decoding a status byte undoes encoding, for every status.
pub proof fn lemma_status_round_trip(s: SlotStatus)
    ensures
        status_of_byte(status_to_byte(s)) == s,
{
}

pub fn status_byte(s: SlotStatus) -> (r: u8)
    ensures
        r == status_to_byte(s),
{
    match s {
        SlotStatus::Processed => 0,
        SlotStatus::Rooted => 1,
        SlotStatus::Confirmed => 2,
        SlotStatus::FirstShredReceived => 3,
        SlotStatus::Completed => 4,
        SlotStatus::CreatedBank => 5,
        SlotStatus::Dead => 6,
        SlotStatus::Unknown => 7,
    }
}

pub fn status_from_byte(b: u8) -> (r: SlotStatus)
    ensures
        r == status_of_byte(b),
{
    if b == 0 {
        SlotStatus::Processed
    } else if b == 1 {
        SlotStatus::Rooted
    } else if b == 2 {
        SlotStatus::Confirmed
    } else if b == 3 {
        SlotStatus::FirstShredReceived
    } else if b == 4 {
        SlotStatus::Completed
    } else if b == 5 {
        SlotStatus::CreatedBank
    } else if b == 6 {
        SlotStatus::Dead
    } else {
        SlotStatus::Unknown
    }
}

// ---------------------------------------------------------------------
// Well-formedness: every variable-length field fits its length prefix.
// Views of executable values always satisfy this.
// ---------------------------------------------------------------------
pub open spec fn wf_account(v: AccountEventGhost) -> bool {
    &&& v.pubkey.len() <= u64::MAX
    &&& v.owner.len() <= u64::MAX
    &&& v.data.len() <= u64::MAX
    &&& (v.txn_signature matches Some(s) ==> s.len() <= u64::MAX)
}

pub open spec fn wf_transaction(v: TransactionEventGhost) -> bool {
    v.signature.len() <= u64::MAX
}

pub open spec fn wf_message(m: EventMessageGhost) -> bool {
    match m {
        EventMessageGhost::Account(a) => wf_account(a),
        EventMessageGhost::Slot(_) => true,
        EventMessageGhost::Transaction(t) => wf_transaction(t),
    }
}

// ---------------------------------------------------------------------
// Spec-level field encodings, one per message schema.
// ---------------------------------------------------------------------
pub open spec fn account_fields(v: AccountEventGhost) -> Seq<u8> {
    enc_u64(v.slot) + enc_bytes(v.pubkey) + enc_u64(v.lamports) + enc_bytes(v.owner) + enc_bool(
        v.executable,
    ) + enc_u64(v.rent_epoch) + enc_bytes(v.data) + enc_u64(v.write_version) + enc_opt_bytes(
        v.txn_signature,
    )
}

pub open spec fn slot_fields(v: SlotStatusEvent) -> Seq<u8> {
    enc_u64(v.slot) + enc_u64(v.parent) + seq![status_to_byte(v.status)]
}

pub open spec fn meta_fields(m: TransactionStatusMeta) -> Seq<u8> {
    enc_bool(m.is_status_err) + enc_u64(m.fee) + enc_u32(m.num_instructions) + enc_u32(
        m.num_accounts,
    ) + enc_opt_u64(m.compute_units_consumed)
}

pub open spec fn enc_opt_meta(o: Option<TransactionStatusMeta>) -> Seq<u8> {
    match o {
        None => seq![0u8],
        Some(m) => seq![1u8] + meta_fields(m),
    }
}

pub open spec fn transaction_fields(v: TransactionEventGhost) -> Seq<u8> {
    enc_bytes(v.signature) + enc_bool(v.is_vote) + enc_opt_meta(v.transaction_status_meta)
        + enc_u64(v.slot) + enc_u64(v.index)
}

/// The envelope encoding: one tag byte, then the fields of the carried
/// event, or the empty tag alone.
pub open spec fn spec_encode_envelope(m: Option<EventMessageGhost>) -> Seq<u8> {
    match m {
        None => seq![EMPTY_ENVELOPE_TAG],
        Some(EventMessageGhost::Account(a)) => seq![WRAPPED_ACCOUNT_TAG] + account_fields(a),
        Some(EventMessageGhost::Slot(s)) => seq![WRAPPED_SLOT_TAG] + slot_fields(s),
        Some(EventMessageGhost::Transaction(t)) => seq![WRAPPED_TRANSACTION_TAG]
            + transaction_fields(t),
    }
}

pub open spec fn spec_encode_raw_account(v: AccountEventGhost) -> Seq<u8> {
    seq![RAW_ACCOUNT_TAG] + account_fields(v)
}

pub open spec fn spec_encode_raw_slot(v: SlotStatusEvent) -> Seq<u8> {
    seq![RAW_SLOT_TAG] + slot_fields(v)
}

pub open spec fn spec_encode_raw_transaction(v: TransactionEventGhost) -> Seq<u8> {
    seq![RAW_TRANSACTION_TAG] + transaction_fields(v)
}

// ---------------------------------------------------------------------
// Spec-level decoders.
// ---------------------------------------------------------------------
pub open spec fn dec_status(s: Seq<u8>, i: int) -> Option<(SlotStatus, int)> {
    match rd_byte(s, i) {
        Some(p) => Some((status_of_byte(p.0), p.1)),
        None => None,
    }
}

pub open spec fn dec_account_fields(s: Seq<u8>, i: int) -> Option<(AccountEventGhost, int)> {
    match rd_u64(s, i) {
        None => None,
        Some(slot) => match rd_bytes(s, slot.1) {
            None => None,
            Some(pubkey) => match rd_u64(s, pubkey.1) {
                None => None,
                Some(lamports) => match rd_bytes(s, lamports.1) {
                    None => None,
                    Some(owner) => match rd_bool(s, owner.1) {
                        None => None,
                        Some(executable) => match rd_u64(s, executable.1) {
                            None => None,
                            Some(rent_epoch) => match rd_bytes(s, rent_epoch.1) {
                                None => None,
                                Some(data) => match rd_u64(s, data.1) {
                                    None => None,
                                    Some(write_version) => match rd_opt_bytes(s, write_version.1) {
                                        None => None,
                                        Some(txn_signature) => Some(
                                            (
                                                AccountEventGhost {
                                                    slot: slot.0,
                                                    pubkey: pubkey.0,
                                                    lamports: lamports.0,
                                                    owner: owner.0,
                                                    executable: executable.0,
                                                    rent_epoch: rent_epoch.0,
                                                    data: data.0,
                                                    write_version: write_version.0,
                                                    txn_signature: txn_signature.0,
                                                },
                                                txn_signature.1,
                                            ),
                                        ),
                                    },
                                },
                            },
                        },
                    },
                },
            },
        },
    }
}

pub open spec fn dec_slot_fields(s: Seq<u8>, i: int) -> Option<(SlotStatusEvent, int)> {
    match rd_u64(s, i) {
        None => None,
        Some(slot) => match rd_u64(s, slot.1) {
            None => None,
            Some(parent) => match dec_status(s, parent.1) {
                None => None,
                Some(status) => Some(
                    (SlotStatusEvent { slot: slot.0, parent: parent.0, status: status.0 }, status.1),
                ),
            },
        },
    }
}

pub open spec fn dec_meta_fields(s: Seq<u8>, i: int) -> Option<(TransactionStatusMeta, int)> {
    match rd_bool(s, i) {
        None => None,
        Some(is_status_err) => match rd_u64(s, is_status_err.1) {
            None => None,
            Some(fee) => match rd_u32(s, fee.1) {
                None => None,
                Some(num_instructions) => match rd_u32(s, num_instructions.1) {
                    None => None,
                    Some(num_accounts) => match rd_opt_u64(s, num_accounts.1) {
                        None => None,
                        Some(compute_units) => Some(
                            (
                                TransactionStatusMeta {
                                    is_status_err: is_status_err.0,
                                    fee: fee.0,
                                    num_instructions: num_instructions.0,
                                    num_accounts: num_accounts.0,
                                    compute_units_consumed: compute_units.0,
                                },
                                compute_units.1,
                            ),
                        ),
                    },
                },
            },
        },
    }
}

pub open spec fn dec_opt_meta(s: Seq<u8>, i: int) -> Option<(Option<TransactionStatusMeta>, int)> {
    match rd_bool(s, i) {
        None => None,
        Some(present) => {
            if present.0 {
                match dec_meta_fields(s, present.1) {
                    None => None,
                    Some(m) => Some((Some(m.0), m.1)),
                }
            } else {
                Some((None, present.1))
            }
        },
    }
}

pub open spec fn dec_transaction_fields(s: Seq<u8>, i: int) -> Option<(TransactionEventGhost, int)> {
    match rd_bytes(s, i) {
        None => None,
        Some(signature) => match rd_bool(s, signature.1) {
            None => None,
            Some(is_vote) => match dec_opt_meta(s, is_vote.1) {
                None => None,
                Some(meta) => match rd_u64(s, meta.1) {
                    None => None,
                    Some(slot) => match rd_u64(s, slot.1) {
                        None => None,
                        Some(index) => Some(
                            (
                                TransactionEventGhost {
                                    signature: signature.0,
                                    is_vote: is_vote.0,
                                    transaction_status_meta: meta.0,
                                    slot: slot.0,
                                    index: index.0,
                                },
                                index.1,
                            ),
                        ),
                    },
                },
            },
        },
    }
}

/// Envelope decoding: the payload must carry a known envelope tag and be
/// consumed exactly.
pub open spec fn dec_envelope(s: Seq<u8>) -> Option<Option<EventMessageGhost>> {
    if s.len() < 1 {
        None
    } else {
        let tag = s[0];
        if tag == EMPTY_ENVELOPE_TAG {
            if s.len() == 1 {
                Some(None)
            } else {
                None
            }
        } else if tag == WRAPPED_ACCOUNT_TAG {
            match dec_account_fields(s, 1) {
                Some(p) => if p.1 == s.len() {
                    Some(Some(EventMessageGhost::Account(p.0)))
                } else {
                    None
                },
                None => None,
            }
        } else if tag == WRAPPED_SLOT_TAG {
            match dec_slot_fields(s, 1) {
                Some(p) => if p.1 == s.len() {
                    Some(Some(EventMessageGhost::Slot(p.0)))
                } else {
                    None
                },
                None => None,
            }
        } else if tag == WRAPPED_TRANSACTION_TAG {
            match dec_transaction_fields(s, 1) {
                Some(p) => if p.1 == s.len() {
                    Some(Some(EventMessageGhost::Transaction(p.0)))
                } else {
                    None
                },
                None => None,
            }
        } else {
            None
        }
    }
}

pub open spec fn dec_raw_account(s: Seq<u8>) -> Option<AccountEventGhost> {
    if s.len() >= 1 && s[0] == RAW_ACCOUNT_TAG {
        match dec_account_fields(s, 1) {
            Some(p) => if p.1 == s.len() {
                Some(p.0)
            } else {
                None
            },
            None => None,
        }
    } else {
        None
    }
}

pub open spec fn dec_raw_slot(s: Seq<u8>) -> Option<SlotStatusEvent> {
    if s.len() >= 1 && s[0] == RAW_SLOT_TAG {
        match dec_slot_fields(s, 1) {
            Some(p) => if p.1 == s.len() {
                Some(p.0)
            } else {
                None
            },
            None => None,
        }
    } else {
        None
    }
}

pub open spec fn dec_raw_transaction(s: Seq<u8>) -> Option<TransactionEventGhost> {
    if s.len() >= 1 && s[0] == RAW_TRANSACTION_TAG {
        match dec_transaction_fields(s, 1) {
            Some(p) => if p.1 == s.len() {
                Some(p.0)
            } else {
                None
            },
            None => None,
        }
    } else {
        None
    }
}

/// The raw fallback path: the first kind word found in the topic name, in
/// the order account, slot, transaction, selects the schema to try.
pub open spec fn spec_raw_fallback(topic: Seq<char>, payload: Seq<u8>) -> Option<
    EventMessageGhost,
> {
    if contains_sub(topic, account_word()) {
        match dec_raw_account(payload) {
            Some(v) => Some(EventMessageGhost::Account(v)),
            None => None,
        }
    } else if contains_sub(topic, slot_word()) {
        match dec_raw_slot(payload) {
            Some(v) => Some(EventMessageGhost::Slot(v)),
            None => None,
        }
    } else if contains_sub(topic, transaction_word()) {
        match dec_raw_transaction(payload) {
            Some(v) => Some(EventMessageGhost::Transaction(v)),
            None => None,
        }
    } else {
        None
    }
}

/// Mode-agnostic decoding: try the envelope first; when the payload is no
/// envelope, or an envelope that carries no event, fall back to the raw
/// schema selected by the topic name.
pub open spec fn spec_decode_event(topic: Seq<char>, payload: Seq<u8>) -> Option<
    EventMessageGhost,
> {
    match dec_envelope(payload) {
        Some(m) => match m {
            Some(e) => Some(e),
            None => spec_raw_fallback(topic, payload),
        },
        None => spec_raw_fallback(topic, payload),
    }
}

// ---------------------------------------------------------------------
// Executable encoders.
// ---------------------------------------------------------------------
fn push_account_fields(out: &mut Vec<u8>, ev: &UpdateAccountEvent)
    ensures
        final(out)@ == old(out)@ + account_fields(ev@),
{
    push_u64(out, ev.slot);
    push_bytes(out, ev.pubkey.as_slice());
    push_u64(out, ev.lamports);
    push_bytes(out, ev.owner.as_slice());
    push_bool(out, ev.executable);
    push_u64(out, ev.rent_epoch);
    push_bytes(out, ev.data.as_slice());
    push_u64(out, ev.write_version);
    push_opt_bytes(out, &ev.txn_signature);
    proof {
        assert(out@ =~= old(out)@ + account_fields(ev@));
    }
}

fn push_slot_fields(out: &mut Vec<u8>, ev: &SlotStatusEvent)
    ensures
        final(out)@ == old(out)@ + slot_fields(*ev),
{
    push_u64(out, ev.slot);
    push_u64(out, ev.parent);
    push_byte(out, status_byte(ev.status));
    proof {
        assert(out@ =~= old(out)@ + slot_fields(*ev));
    }
}

fn push_transaction_fields(out: &mut Vec<u8>, ev: &TransactionEvent)
    ensures
        final(out)@ == old(out)@ + transaction_fields(ev@),
{
    push_bytes(out, ev.signature.as_slice());
    push_bool(out, ev.is_vote);
    match &ev.transaction_status_meta {
        None => {
            push_bool(out, false);
        },
        Some(m) => {
            push_bool(out, true);
            push_bool(out, m.is_status_err);
            push_u64(out, m.fee);
            push_u32(out, m.num_instructions);
            push_u32(out, m.num_accounts);
            push_opt_u64(out, m.compute_units_consumed);
        },
    }
    push_u64(out, ev.slot);
    push_u64(out, ev.index);
    proof {
        assert(out@ =~= old(out)@ + transaction_fields(ev@));
    }
}

impl UpdateAccountEvent {
    /// The raw account schema: schema byte, then the fields.
    pub fn encode_to_vec(&self) -> (r: Vec<u8>)
        ensures
            r@ == spec_encode_raw_account(self@),
    {
        let mut out: Vec<u8> = Vec::new();
        push_byte(&mut out, RAW_ACCOUNT_TAG);
        push_account_fields(&mut out, self);
        proof {
            assert(out@ =~= spec_encode_raw_account(self@));
        }
        out
    }
}

impl SlotStatusEvent {
    /// The raw slot-status schema: schema byte, then the fields.
    pub fn encode_to_vec(&self) -> (r: Vec<u8>)
        ensures
            r@ == spec_encode_raw_slot(*self),
    {
        let mut out: Vec<u8> = Vec::new();
        push_byte(&mut out, RAW_SLOT_TAG);
        push_slot_fields(&mut out, self);
        proof {
            assert(out@ =~= spec_encode_raw_slot(*self));
        }
        out
    }
}

impl TransactionEvent {
    /// The raw transaction schema: schema byte, then the fields.
    pub fn encode_to_vec(&self) -> (r: Vec<u8>)
        ensures
            r@ == spec_encode_raw_transaction(self@),
    {
        let mut out: Vec<u8> = Vec::new();
        push_byte(&mut out, RAW_TRANSACTION_TAG);
        push_transaction_fields(&mut out, self);
        proof {
            assert(out@ =~= spec_encode_raw_transaction(self@));
        }
        out
    }
}

impl View for MessageWrapper {
    type V = Option<EventMessageGhost>;

    open spec fn view(&self) -> Option<EventMessageGhost> {
        match self.event_message {
            Some(m) => Some(m@),
            None => None,
        }
    }
}

/// Encode an account event inside the envelope, as wrapped mode sends it.
pub fn encode_wrapped_account(ev: &UpdateAccountEvent) -> (r: Vec<u8>)
    ensures
        r@ == spec_encode_envelope(Some(EventMessageGhost::Account(ev@))),
{
    let mut out: Vec<u8> = Vec::new();
    push_byte(&mut out, WRAPPED_ACCOUNT_TAG);
    push_account_fields(&mut out, ev);
    proof {
        assert(out@ =~= spec_encode_envelope(Some(EventMessageGhost::Account(ev@))));
    }
    out
}

/// Encode a slot-status event inside the envelope.
pub fn encode_wrapped_slot(ev: &SlotStatusEvent) -> (r: Vec<u8>)
    ensures
        r@ == spec_encode_envelope(Some(EventMessageGhost::Slot(*ev))),
{
    let mut out: Vec<u8> = Vec::new();
    push_byte(&mut out, WRAPPED_SLOT_TAG);
    push_slot_fields(&mut out, ev);
    proof {
        assert(out@ =~= spec_encode_envelope(Some(EventMessageGhost::Slot(*ev))));
    }
    out
}

/// Encode a transaction event inside the envelope.
pub fn encode_wrapped_transaction(ev: &TransactionEvent) -> (r: Vec<u8>)
    ensures
        r@ == spec_encode_envelope(Some(EventMessageGhost::Transaction(ev@))),
{
    let mut out: Vec<u8> = Vec::new();
    push_byte(&mut out, WRAPPED_TRANSACTION_TAG);
    push_transaction_fields(&mut out, ev);
    proof {
        assert(out@ =~= spec_encode_envelope(Some(EventMessageGhost::Transaction(ev@))));
    }
    out
}

/// Encode one event inside the envelope, as wrapped mode sends it.
pub fn encode_with_wrapper(message: &EventMessage) -> (r: Vec<u8>)
    ensures
        r@ == spec_encode_envelope(Some(message@)),
{
    match message {
        EventMessage::Account(a) => encode_wrapped_account(a),
        EventMessage::Slot(s) => encode_wrapped_slot(s),
        EventMessage::Transaction(t) => encode_wrapped_transaction(t),
    }
}

impl MessageWrapper {
    /// Encode the envelope itself, empty or carrying one event.
    pub fn encode_to_vec(&self) -> (r: Vec<u8>)
        ensures
            r@ == spec_encode_envelope(self@),
    {
        match &self.event_message {
            Some(m) => encode_with_wrapper(m),
            None => {
                let mut out: Vec<u8> = Vec::new();
                push_byte(&mut out, EMPTY_ENVELOPE_TAG);
                proof {
                    assert(out@ =~= spec_encode_envelope(self@));
                }
                out
            },
        }
    }
}

// ---------------------------------------------------------------------
// Executable decoders, each agreeing with its spec-level decoder.
// ---------------------------------------------------------------------
fn read_account_fields(s: &[u8], i: usize) -> (r: Option<(UpdateAccountEvent, usize)>)
    ensures
        match r {
            Some(p) => dec_account_fields(s@, i as int) matches Some(q) && p.0@ == q.0 && p.1
                as int == q.1,
            None => dec_account_fields(s@, i as int) is None,
        },
{
    let (slot, i1) = match read_u64(s, i) {
        Some(p) => p,
        None => { return None; },
    };
    let (pubkey, i2) = match read_bytes(s, i1) {
        Some(p) => p,
        None => { return None; },
    };
    let (lamports, i3) = match read_u64(s, i2) {
        Some(p) => p,
        None => { return None; },
    };
    let (owner, i4) = match read_bytes(s, i3) {
        Some(p) => p,
        None => { return None; },
    };
    let (executable, i5) = match read_bool(s, i4) {
        Some(p) => p,
        None => { return None; },
    };
    let (rent_epoch, i6) = match read_u64(s, i5) {
        Some(p) => p,
        None => { return None; },
    };
    let (data, i7) = match read_bytes(s, i6) {
        Some(p) => p,
        None => { return None; },
    };
    let (write_version, i8) = match read_u64(s, i7) {
        Some(p) => p,
        None => { return None; },
    };
    let (txn_signature, i9) = match read_opt_bytes(s, i8) {
        Some(p) => p,
        None => { return None; },
    };
    Some(
        (
            UpdateAccountEvent {
                slot,
                pubkey,
                lamports,
                owner,
                executable,
                rent_epoch,
                data,
                write_version,
                txn_signature,
            },
            i9,
        ),
    )
}

fn read_slot_fields(s: &[u8], i: usize) -> (r: Option<(SlotStatusEvent, usize)>)
    ensures
        match r {
            Some(p) => dec_slot_fields(s@, i as int) == Some((p.0, p.1 as int)),
            None => dec_slot_fields(s@, i as int) is None,
        },
{
    let (slot, i1) = match read_u64(s, i) {
        Some(p) => p,
        None => { return None; },
    };
    let (parent, i2) = match read_u64(s, i1) {
        Some(p) => p,
        None => { return None; },
    };
    let (status_raw, i3) = match read_byte(s, i2) {
        Some(p) => p,
        None => { return None; },
    };
    let status = status_from_byte(status_raw);
    Some((SlotStatusEvent { slot, parent, status }, i3))
}

fn read_opt_meta(s: &[u8], i: usize) -> (r: Option<(Option<TransactionStatusMeta>, usize)>)
    ensures
        match r {
            Some(p) => dec_opt_meta(s@, i as int) == Some((p.0, p.1 as int)),
            None => dec_opt_meta(s@, i as int) is None,
        },
{
    let (present, i1) = match read_bool(s, i) {
        Some(p) => p,
        None => { return None; },
    };
    if !present {
        return Some((None, i1));
    }
    let (is_status_err, i2) = match read_bool(s, i1) {
        Some(p) => p,
        None => { return None; },
    };
    let (fee, i3) = match read_u64(s, i2) {
        Some(p) => p,
        None => { return None; },
    };
    let (num_instructions, i4) = match read_u32(s, i3) {
        Some(p) => p,
        None => { return None; },
    };
    let (num_accounts, i5) = match read_u32(s, i4) {
        Some(p) => p,
        None => { return None; },
    };
    let (compute_units_consumed, i6) = match read_opt_u64(s, i5) {
        Some(p) => p,
        None => { return None; },
    };
    Some(
        (
            Some(
                TransactionStatusMeta {
                    is_status_err,
                    fee,
                    num_instructions,
                    num_accounts,
                    compute_units_consumed,
                },
            ),
            i6,
        ),
    )
}

fn read_transaction_fields(s: &[u8], i: usize) -> (r: Option<(TransactionEvent, usize)>)
    ensures
        match r {
            Some(p) => dec_transaction_fields(s@, i as int) matches Some(q) && p.0@ == q.0 && p.1
                as int == q.1,
            None => dec_transaction_fields(s@, i as int) is None,
        },
{
    let (signature, i1) = match read_bytes(s, i) {
        Some(p) => p,
        None => { return None; },
    };
    let (is_vote, i2) = match read_bool(s, i1) {
        Some(p) => p,
        None => { return None; },
    };
    let (transaction_status_meta, i3) = match read_opt_meta(s, i2) {
        Some(p) => p,
        None => { return None; },
    };
    let (slot, i4) = match read_u64(s, i3) {
        Some(p) => p,
        None => { return None; },
    };
    let (index, i5) = match read_u64(s, i4) {
        Some(p) => p,
        None => { return None; },
    };
    Some((TransactionEvent { signature, is_vote, transaction_status_meta, slot, index }, i5))
}

impl MessageWrapper {
    /// Try to read the payload as an envelope; the whole payload must be
    /// consumed.
    pub fn decode(payload: &[u8]) -> (r: Option<MessageWrapper>)
        ensures
            match r {
                Some(w) => dec_envelope(payload@) == Some(w@),
                None => dec_envelope(payload@) is None,
            },
    {
        if payload.len() < 1 {
            return None;
        }
        let tag = payload[0];
        if tag == EMPTY_ENVELOPE_TAG {
            if payload.len() == 1 {
                Some(MessageWrapper { event_message: None })
            } else {
                None
            }
        } else if tag == WRAPPED_ACCOUNT_TAG {
            match read_account_fields(payload, 1) {
                Some((ev, end)) => {
                    if end == payload.len() {
                        Some(MessageWrapper { event_message: Some(EventMessage::Account(ev)) })
                    } else {
                        None
                    }
                },
                None => None,
            }
        } else if tag == WRAPPED_SLOT_TAG {
            match read_slot_fields(payload, 1) {
                Some((ev, end)) => {
                    if end == payload.len() {
                        Some(MessageWrapper { event_message: Some(EventMessage::Slot(ev)) })
                    } else {
                        None
                    }
                },
                None => None,
            }
        } else if tag == WRAPPED_TRANSACTION_TAG {
            match read_transaction_fields(payload, 1) {
                Some((ev, end)) => {
                    if end == payload.len() {
                        Some(MessageWrapper { event_message: Some(EventMessage::Transaction(ev)) })
                    } else {
                        None
                    }
                },
                None => None,
            }
        } else {
            None
        }
    }
}

impl UpdateAccountEvent {
    /// Try to read the payload under the raw account schema.
    pub fn decode(payload: &[u8]) -> (r: Option<UpdateAccountEvent>)
        ensures
            match r {
                Some(ev) => dec_raw_account(payload@) == Some(ev@),
                None => dec_raw_account(payload@) is None,
            },
    {
        if payload.len() < 1 {
            return None;
        }
        if payload[0] != RAW_ACCOUNT_TAG {
            return None;
        }
        match read_account_fields(payload, 1) {
            Some((ev, end)) => {
                if end == payload.len() {
                    Some(ev)
                } else {
                    None
                }
            },
            None => None,
        }
    }
}

impl SlotStatusEvent {
    /// Try to read the payload under the raw slot-status schema.
    pub fn decode(payload: &[u8]) -> (r: Option<SlotStatusEvent>)
        ensures
            match r {
                Some(ev) => dec_raw_slot(payload@) == Some(ev),
                None => dec_raw_slot(payload@) is None,
            },
    {
        if payload.len() < 1 {
            return None;
        }
        if payload[0] != RAW_SLOT_TAG {
            return None;
        }
        match read_slot_fields(payload, 1) {
            Some((ev, end)) => {
                if end == payload.len() {
                    Some(ev)
                } else {
                    None
                }
            },
            None => None,
        }
    }
}

impl TransactionEvent {
    /// Try to read the payload under the raw transaction schema.
    pub fn decode(payload: &[u8]) -> (r: Option<TransactionEvent>)
        ensures
            match r {
                Some(ev) => dec_raw_transaction(payload@) == Some(ev@),
                None => dec_raw_transaction(payload@) is None,
            },
    {
        if payload.len() < 1 {
            return None;
        }
        if payload[0] != RAW_TRANSACTION_TAG {
            return None;
        }
        match read_transaction_fields(payload, 1) {
            Some((ev, end)) => {
                if end == payload.len() {
                    Some(ev)
                } else {
                    None
                }
            },
            None => None,
        }
    }
}

/// The raw fallback path of decoding, selected by the topic name.
fn decode_raw_by_topic(topic: &str, payload: &[u8]) -> (r: Option<EventMessage>)
    ensures
        match r {
            Some(m) => spec_raw_fallback(topic@, payload@) == Some(m@),
            None => spec_raw_fallback(topic@, payload@) is None,
        },
{
    if topic_matches_account(topic) {
        match UpdateAccountEvent::decode(payload) {
            Some(ev) => Some(EventMessage::Account(ev)),
            None => None,
        }
    } else if topic_matches_slot(topic) {
        match SlotStatusEvent::decode(payload) {
            Some(ev) => Some(EventMessage::Slot(ev)),
            None => None,
        }
    } else if topic_matches_transaction(topic) {
        match TransactionEvent::decode(payload) {
            Some(ev) => Some(EventMessage::Transaction(ev)),
            None => None,
        }
    } else {
        None
    }
}

/// Mode-agnostic decoding of one received message: envelope first, then
/// the raw schema selected by the topic name.  `None` means the message
/// is dropped.
pub fn decode_event(topic: &str, payload: &[u8]) -> (r: Option<EventMessage>)
    ensures
        match r {
            Some(m) => spec_decode_event(topic@, payload@) == Some(m@),
            None => spec_decode_event(topic@, payload@) is None,
        },
{
    match MessageWrapper::decode(payload) {
        Some(w) => match w.event_message {
            Some(m) => Some(m),
            None => decode_raw_by_topic(topic, payload),
        },
        None => decode_raw_by_topic(topic, payload),
    }
}

} // verus!
