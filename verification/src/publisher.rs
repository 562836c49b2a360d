//! The publish side of the pipeline: key derivation, the payload for
//! each wire mode, and the filter gate that decides whether an event is
//! published at all.
//!
//! The functions here only build bytes; handing a record to the broker
//! client is left to the unverified shell around the library.

use crate::codec::{
    encode_wrapped_account, encode_wrapped_slot, encode_wrapped_transaction,
    spec_encode_envelope, spec_encode_raw_account, spec_encode_raw_slot,
    spec_encode_raw_transaction, WRAPPED_ACCOUNT_TAG, WRAPPED_SLOT_TAG, WRAPPED_TRANSACTION_TAG,
};
use crate::events::{
    AccountEventGhost, EventMessageGhost, SlotStatusEvent, TransactionEventGhost,
    TransactionEvent, UpdateAccountEvent,
};
use crate::filter::{key_list_contains, spec_wants_key, Filter};
use crate::wire::enc_u64;
use vstd::bytes::u64_to_le_bytes;
use vstd::prelude::*;
use vstd::slice::slice_to_vec;

verus! {

// ---------------------------------------------------------------------
// Key derivation.  The natural key is the pubkey, the little-endian slot
// number, or the signature; wrapped mode prepends the kind's fixed
// prefix byte so consumers can route by key alone.
// ---------------------------------------------------------------------
pub open spec fn spec_account_key(v: AccountEventGhost, wrap: bool) -> Seq<u8> {
    if wrap {
        seq![WRAPPED_ACCOUNT_TAG] + v.pubkey
    } else {
        v.pubkey
    }
}

pub open spec fn spec_slot_key(v: SlotStatusEvent, wrap: bool) -> Seq<u8> {
    if wrap {
        seq![WRAPPED_SLOT_TAG] + enc_u64(v.slot)
    } else {
        enc_u64(v.slot)
    }
}

pub open spec fn spec_transaction_key(v: TransactionEventGhost, wrap: bool) -> Seq<u8> {
    if wrap {
        seq![WRAPPED_TRANSACTION_TAG] + v.signature
    } else {
        v.signature
    }
}

pub open spec fn spec_account_payload(v: AccountEventGhost, wrap: bool) -> Seq<u8> {
    if wrap {
        spec_encode_envelope(Some(EventMessageGhost::Account(v)))
    } else {
        spec_encode_raw_account(v)
    }
}

pub open spec fn spec_slot_payload(v: SlotStatusEvent, wrap: bool) -> Seq<u8> {
    if wrap {
        spec_encode_envelope(Some(EventMessageGhost::Slot(v)))
    } else {
        spec_encode_raw_slot(v)
    }
}

pub open spec fn spec_transaction_payload(v: TransactionEventGhost, wrap: bool) -> Seq<u8> {
    if wrap {
        spec_encode_envelope(Some(EventMessageGhost::Transaction(v)))
    } else {
        spec_encode_raw_transaction(v)
    }
}

/// A fresh byte string holding `prefix` followed by `data`.
pub fn copy_and_prepend(data: &[u8], prefix: u8) -> (r: Vec<u8>)
    ensures
        r@ == seq![prefix] + data@,
{
    let mut out: Vec<u8> = Vec::new();
    out.push(prefix);
    let mut tail = slice_to_vec(data);
    out.append(&mut tail);
    proof {
        assert(out@ =~= seq![prefix] + data@);
    }
    out
}

/// Key and payload for one account event in the given wire mode.
pub fn account_message(ev: &UpdateAccountEvent, wrap_messages: bool) -> (r: (Vec<u8>, Vec<u8>))
    ensures
        r.0@ == spec_account_key(ev@, wrap_messages),
        r.1@ == spec_account_payload(ev@, wrap_messages),
{
    if wrap_messages {
        let key = copy_and_prepend(ev.pubkey.as_slice(), WRAPPED_ACCOUNT_TAG);
        let buf = encode_wrapped_account(ev);
        (key, buf)
    } else {
        let key = slice_to_vec(ev.pubkey.as_slice());
        let buf = ev.encode_to_vec();
        (key, buf)
    }
}

/// Key and payload for one slot-status event in the given wire mode.
pub fn slot_status_message(ev: &SlotStatusEvent, wrap_messages: bool) -> (r: (Vec<u8>, Vec<u8>))
    ensures
        r.0@ == spec_slot_key(*ev, wrap_messages),
        r.1@ == spec_slot_payload(*ev, wrap_messages),
{
    let slot_bytes = u64_to_le_bytes(ev.slot);
    if wrap_messages {
        let key = copy_and_prepend(slot_bytes.as_slice(), WRAPPED_SLOT_TAG);
        let buf = encode_wrapped_slot(ev);
        (key, buf)
    } else {
        let buf = ev.encode_to_vec();
        (slot_bytes, buf)
    }
}

/// Key and payload for one transaction event in the given wire mode.
pub fn transaction_message(ev: &TransactionEvent, wrap_messages: bool) -> (r: (Vec<u8>, Vec<u8>))
    ensures
        r.0@ == spec_transaction_key(ev@, wrap_messages),
        r.1@ == spec_transaction_payload(ev@, wrap_messages),
{
    if wrap_messages {
        let key = copy_and_prepend(ev.signature.as_slice(), WRAPPED_TRANSACTION_TAG);
        let buf = encode_wrapped_transaction(ev);
        (key, buf)
    } else {
        let key = slice_to_vec(ev.signature.as_slice());
        let buf = ev.encode_to_vec();
        (key, buf)
    }
}

// ---------------------------------------------------------------------
// The publish gate: whether an event reaches encoding at all.
// ---------------------------------------------------------------------
/// An account event is published when an account topic is configured,
/// its owning program is wanted and the account itself is wanted.
pub open spec fn spec_account_gate(f: &Filter, v: AccountEventGhost) -> bool {
    &&& f.update_account_topic@.len() != 0
    &&& spec_wants_key(f.program_ignores.deep_view(), f.program_filters.deep_view(), v.owner)
    &&& spec_wants_key(f.account_ignores.deep_view(), f.account_filters.deep_view(), v.pubkey)
}

/// A slot-status event is published when a slot topic is configured.
pub open spec fn spec_slot_gate(f: &Filter) -> bool {
    f.slot_status_topic@.len() != 0
}

/// A transaction event is published when a transaction topic is
/// configured and its vote and failure classes are included.
pub open spec fn spec_transaction_gate(f: &Filter, v: TransactionEventGhost) -> bool {
    &&& f.transaction_topic@.len() != 0
    &&& (v.is_vote ==> f.include_vote_transactions)
    &&& ((v.transaction_status_meta matches Some(m) && m.is_status_err)
        ==> f.include_failed_transactions)
}

/// Key and payload for an account event, or nothing when the filter
/// drops it; a dropped event never reaches encoding.
pub fn account_publish_message(f: &Filter, ev: &UpdateAccountEvent) -> (r: Option<
    (Vec<u8>, Vec<u8>),
>)
    ensures
        match r {
            Some(kp) => spec_account_gate(f, ev@) && kp.0@ == spec_account_key(
                ev@,
                f.wrap_messages,
            ) && kp.1@ == spec_account_payload(ev@, f.wrap_messages),
            None => !spec_account_gate(f, ev@),
        },
{
    if !f.has_account_topic() {
        return None;
    }
    if !f.wants_program(ev.owner.as_slice()) {
        return None;
    }
    if !f.wants_account(ev.pubkey.as_slice()) {
        return None;
    }
    Some(account_message(ev, f.wrap_messages))
}

/// Key and payload for a slot-status event, or nothing when no slot
/// topic is configured.
pub fn slot_publish_message(f: &Filter, ev: &SlotStatusEvent) -> (r: Option<(Vec<u8>, Vec<u8>)>)
    ensures
        match r {
            Some(kp) => spec_slot_gate(f) && kp.0@ == spec_slot_key(*ev, f.wrap_messages)
                && kp.1@ == spec_slot_payload(*ev, f.wrap_messages),
            None => !spec_slot_gate(f),
        },
{
    if !f.has_slot_topic() {
        return None;
    }
    Some(slot_status_message(ev, f.wrap_messages))
}

/// Key and payload for a transaction event, or nothing when the filter
/// drops it.
pub fn transaction_publish_message(f: &Filter, ev: &TransactionEvent) -> (r: Option<
    (Vec<u8>, Vec<u8>),
>)
    ensures
        match r {
            Some(kp) => spec_transaction_gate(f, ev@) && kp.0@ == spec_transaction_key(
                ev@,
                f.wrap_messages,
            ) && kp.1@ == spec_transaction_payload(ev@, f.wrap_messages),
            None => !spec_transaction_gate(f, ev@),
        },
{
    if !f.has_transaction_topic() {
        return None;
    }
    if ev.is_vote && !f.wants_vote_tx() {
        return None;
    }
    let failed = match &ev.transaction_status_meta {
        Some(m) => m.is_status_err,
        None => false,
    };
    if failed && !f.wants_failed_tx() {
        return None;
    }
    Some(transaction_message(ev, f.wrap_messages))
}

// ---------------------------------------------------------------------
// Laws.
// ---------------------------------------------------------------------
/// Law: key derivation is deterministic — equal events in the same wire
/// mode derive equal key bytes, for all three kinds.
pub proof fn lemma_key_derivation_deterministic(
    a1: AccountEventGhost,
    a2: AccountEventGhost,
    s1: SlotStatusEvent,
    s2: SlotStatusEvent,
    t1: TransactionEventGhost,
    t2: TransactionEventGhost,
    wrap: bool,
)
    requires
        a1 == a2,
        s1 == s2,
        t1 == t2,
    ensures
        spec_account_key(a1, wrap) == spec_account_key(a2, wrap),
        spec_slot_key(s1, wrap) == spec_slot_key(s2, wrap),
        spec_transaction_key(t1, wrap) == spec_transaction_key(t2, wrap),
{
}

/// Law: a wrapped-mode key always begins with the kind's fixed prefix
/// byte, followed by the natural key.
pub proof fn lemma_wrapped_key_prefix(
    a: AccountEventGhost,
    s: SlotStatusEvent,
    t: TransactionEventGhost,
)
    ensures
        spec_account_key(a, true)[0] == WRAPPED_ACCOUNT_TAG,
        spec_account_key(a, true).skip(1) == spec_account_key(a, false),
        spec_slot_key(s, true)[0] == WRAPPED_SLOT_TAG,
        spec_slot_key(s, true).skip(1) == spec_slot_key(s, false),
        spec_transaction_key(t, true)[0] == WRAPPED_TRANSACTION_TAG,
        spec_transaction_key(t, true).skip(1) == spec_transaction_key(t, false),
{
    broadcast use crate::wire::lemma_enc_u64_len;

    assert(spec_account_key(a, true).skip(1) =~= a.pubkey);
    assert(spec_slot_key(s, true).skip(1) =~= enc_u64(s.slot));
    assert(spec_transaction_key(t, true).skip(1) =~= t.signature);
}

/// Law: an account event whose owning program is ignored is never
/// published, even when that program also stands on the allow-list.
pub proof fn lemma_ignored_program_never_encoded(f: &Filter, v: AccountEventGhost)
    requires
        key_list_contains(f.program_ignores.deep_view(), v.owner),
    ensures
        !spec_account_gate(f, v),
{
}

} // verus!
