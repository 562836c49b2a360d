//! Round-trip laws of the wire codec: decoding an encoded event, in the
//! same wire mode, gives back the event, for all three kinds.

use crate::codec::{
    account_fields, dec_account_fields, dec_envelope, dec_meta_fields, dec_opt_meta, dec_raw_account,
    dec_raw_slot, dec_raw_transaction, dec_slot_fields, dec_transaction_fields, enc_opt_meta,
    lemma_status_round_trip, meta_fields, slot_fields, spec_decode_event, spec_encode_envelope,
    spec_encode_raw_account, spec_encode_raw_slot, spec_encode_raw_transaction, status_to_byte,
    transaction_fields, wf_account, wf_message, wf_transaction, EMPTY_ENVELOPE_TAG,
    RAW_ACCOUNT_TAG, RAW_SLOT_TAG, RAW_TRANSACTION_TAG, WRAPPED_ACCOUNT_TAG, WRAPPED_SLOT_TAG,
    WRAPPED_TRANSACTION_TAG,
};
use crate::events::{
    AccountEventGhost, EventMessageGhost, SlotStatusEvent, TransactionEventGhost,
    TransactionStatusMeta,
};
use crate::topic::{account_word, contains_sub, slot_word, transaction_word};
use crate::wire::{
    enc_bool, enc_bytes, enc_opt_bytes, enc_opt_u64, enc_u32, enc_u64, lemma_enc_bytes_len,
    lemma_enc_u32_len, lemma_enc_u64_len, lemma_rd_bool_at, lemma_rd_byte_at, lemma_rd_bytes_at,
    lemma_rd_opt_bytes_at, lemma_rd_opt_u64_at, lemma_rd_u32_at, lemma_rd_u64_at,
};
use vstd::prelude::*;

verus! {

/// In a message that holds the account fields of `v` at offset
/// `pre.len()`, the account field reader finds `v` and stops after them.
#[verifier::spinoff_prover]
#[verifier::rlimit(100)]
pub proof fn lemma_dec_account_fields_at(pre: Seq<u8>, v: AccountEventGhost, post: Seq<u8>)
    requires
        wf_account(v),
    ensures
        dec_account_fields(pre + account_fields(v) + post, pre.len() as int) == Some(
            (v, pre.len() as int + account_fields(v).len() as int),
        ),
{
    broadcast use lemma_enc_u64_len, lemma_enc_u32_len, lemma_enc_bytes_len;

    let s = pre + account_fields(v) + post;
    let f1 = enc_u64(v.slot);
    let f2 = enc_bytes(v.pubkey);
    let f3 = enc_u64(v.lamports);
    let f4 = enc_bytes(v.owner);
    let f5 = enc_bool(v.executable);
    let f6 = enc_u64(v.rent_epoch);
    let f7 = enc_bytes(v.data);
    let f8 = enc_u64(v.write_version);
    let f9 = enc_opt_bytes(v.txn_signature);

    assert(s =~= pre + f1 + (f2 + f3 + f4 + f5 + f6 + f7 + f8 + f9 + post));
    lemma_rd_u64_at(pre, v.slot, f2 + f3 + f4 + f5 + f6 + f7 + f8 + f9 + post);

    let p1 = pre + f1;
    assert(s =~= p1 + f2 + (f3 + f4 + f5 + f6 + f7 + f8 + f9 + post));
    lemma_rd_bytes_at(p1, v.pubkey, f3 + f4 + f5 + f6 + f7 + f8 + f9 + post);

    let p2 = p1 + f2;
    assert(s =~= p2 + f3 + (f4 + f5 + f6 + f7 + f8 + f9 + post));
    lemma_rd_u64_at(p2, v.lamports, f4 + f5 + f6 + f7 + f8 + f9 + post);

    let p3 = p2 + f3;
    assert(s =~= p3 + f4 + (f5 + f6 + f7 + f8 + f9 + post));
    lemma_rd_bytes_at(p3, v.owner, f5 + f6 + f7 + f8 + f9 + post);

    let p4 = p3 + f4;
    assert(s =~= p4 + f5 + (f6 + f7 + f8 + f9 + post));
    lemma_rd_bool_at(p4, v.executable, f6 + f7 + f8 + f9 + post);

    let p5 = p4 + f5;
    assert(s =~= p5 + f6 + (f7 + f8 + f9 + post));
    lemma_rd_u64_at(p5, v.rent_epoch, f7 + f8 + f9 + post);

    let p6 = p5 + f6;
    assert(s =~= p6 + f7 + (f8 + f9 + post));
    lemma_rd_bytes_at(p6, v.data, f8 + f9 + post);

    let p7 = p6 + f7;
    assert(s =~= p7 + f8 + (f9 + post));
    lemma_rd_u64_at(p7, v.write_version, f9 + post);

    let p8 = p7 + f8;
    assert(s =~= p8 + f9 + post);
    lemma_rd_opt_bytes_at(p8, v.txn_signature, post);
}

/// The same for slot-status fields.
pub proof fn lemma_dec_slot_fields_at(pre: Seq<u8>, v: SlotStatusEvent, post: Seq<u8>)
    ensures
        dec_slot_fields(pre + slot_fields(v) + post, pre.len() as int) == Some(
            (v, pre.len() as int + slot_fields(v).len() as int),
        ),
{
    broadcast use lemma_enc_u64_len;

    let s = pre + slot_fields(v) + post;
    let f1 = enc_u64(v.slot);
    let f2 = enc_u64(v.parent);
    let f3 = seq![status_to_byte(v.status)];

    assert(s =~= pre + f1 + (f2 + f3 + post));
    lemma_rd_u64_at(pre, v.slot, f2 + f3 + post);

    let p1 = pre + f1;
    assert(s =~= p1 + f2 + (f3 + post));
    lemma_rd_u64_at(p1, v.parent, f3 + post);

    let p2 = p1 + f2;
    assert(s =~= p2 + f3 + post);
    lemma_rd_byte_at(p2, status_to_byte(v.status), post);
    lemma_status_round_trip(v.status);
}

/// The same for transaction result summaries.
pub proof fn lemma_dec_meta_fields_at(pre: Seq<u8>, m: TransactionStatusMeta, post: Seq<u8>)
    ensures
        dec_meta_fields(pre + meta_fields(m) + post, pre.len() as int) == Some(
            (m, pre.len() as int + meta_fields(m).len() as int),
        ),
{
    broadcast use lemma_enc_u64_len, lemma_enc_u32_len;

    let s = pre + meta_fields(m) + post;
    let f1 = enc_bool(m.is_status_err);
    let f2 = enc_u64(m.fee);
    let f3 = enc_u32(m.num_instructions);
    let f4 = enc_u32(m.num_accounts);
    let f5 = enc_opt_u64(m.compute_units_consumed);

    assert(s =~= pre + f1 + (f2 + f3 + f4 + f5 + post));
    lemma_rd_bool_at(pre, m.is_status_err, f2 + f3 + f4 + f5 + post);

    let p1 = pre + f1;
    assert(s =~= p1 + f2 + (f3 + f4 + f5 + post));
    lemma_rd_u64_at(p1, m.fee, f3 + f4 + f5 + post);

    let p2 = p1 + f2;
    assert(s =~= p2 + f3 + (f4 + f5 + post));
    lemma_rd_u32_at(p2, m.num_instructions, f4 + f5 + post);

    let p3 = p2 + f3;
    assert(s =~= p3 + f4 + (f5 + post));
    lemma_rd_u32_at(p3, m.num_accounts, f5 + post);

    let p4 = p3 + f4;
    assert(s =~= p4 + f5 + post);
    lemma_rd_opt_u64_at(p4, m.compute_units_consumed, post);
}

/// The same for an optional result summary.
pub proof fn lemma_dec_opt_meta_at(pre: Seq<u8>, o: Option<TransactionStatusMeta>, post: Seq<u8>)
    ensures
        dec_opt_meta(pre + enc_opt_meta(o) + post, pre.len() as int) == Some(
            (o, pre.len() as int + enc_opt_meta(o).len() as int),
        ),
{
    let s = pre + enc_opt_meta(o) + post;
    match o {
        None => {
            assert(s =~= pre + enc_bool(false) + post);
            lemma_rd_bool_at(pre, false, post);
        },
        Some(m) => {
            assert(s =~= pre + enc_bool(true) + (meta_fields(m) + post));
            lemma_rd_bool_at(pre, true, meta_fields(m) + post);
            assert(s =~= (pre + enc_bool(true)) + meta_fields(m) + post);
            lemma_dec_meta_fields_at(pre + enc_bool(true), m, post);
        },
    }
}

/// The same for transaction fields.
#[verifier::spinoff_prover]
#[verifier::rlimit(100)]
pub proof fn lemma_dec_transaction_fields_at(pre: Seq<u8>, v: TransactionEventGhost, post: Seq<u8>)
    requires
        wf_transaction(v),
    ensures
        dec_transaction_fields(pre + transaction_fields(v) + post, pre.len() as int) == Some(
            (v, pre.len() as int + transaction_fields(v).len() as int),
        ),
{
    broadcast use lemma_enc_u64_len, lemma_enc_u32_len, lemma_enc_bytes_len;

    let s = pre + transaction_fields(v) + post;
    let f1 = enc_bytes(v.signature);
    let f2 = enc_bool(v.is_vote);
    let f3 = enc_opt_meta(v.transaction_status_meta);
    let f4 = enc_u64(v.slot);
    let f5 = enc_u64(v.index);

    assert(s =~= pre + f1 + (f2 + f3 + f4 + f5 + post));
    lemma_rd_bytes_at(pre, v.signature, f2 + f3 + f4 + f5 + post);

    let p1 = pre + f1;
    assert(s =~= p1 + f2 + (f3 + f4 + f5 + post));
    lemma_rd_bool_at(p1, v.is_vote, f3 + f4 + f5 + post);

    let p2 = p1 + f2;
    assert(s =~= p2 + f3 + (f4 + f5 + post));
    lemma_dec_opt_meta_at(p2, v.transaction_status_meta, f4 + f5 + post);

    let p3 = p2 + f3;
    assert(s =~= p3 + f4 + (f5 + post));
    lemma_rd_u64_at(p3, v.slot, f5 + post);

    let p4 = p3 + f4;
    assert(s =~= p4 + f5 + post);
    lemma_rd_u64_at(p4, v.index, post);
}

/// Law: envelope decoding undoes envelope encoding, for an envelope that
/// is empty as well as for each carried kind.
pub proof fn lemma_envelope_round_trip(m: Option<EventMessageGhost>)
    requires
        m matches Some(e) ==> wf_message(e),
    ensures
        dec_envelope(spec_encode_envelope(m)) == Some(m),
{
    broadcast use lemma_enc_u64_len, lemma_enc_u32_len, lemma_enc_bytes_len;

    let s = spec_encode_envelope(m);
    match m {
        None => {
            assert(s[0] == EMPTY_ENVELOPE_TAG);
        },
        Some(EventMessageGhost::Account(a)) => {
            assert(s =~= seq![WRAPPED_ACCOUNT_TAG] + account_fields(a) + Seq::<u8>::empty());
            lemma_dec_account_fields_at(seq![WRAPPED_ACCOUNT_TAG], a, Seq::<u8>::empty());
            assert(s[0] == WRAPPED_ACCOUNT_TAG);
        },
        Some(EventMessageGhost::Slot(e)) => {
            assert(s =~= seq![WRAPPED_SLOT_TAG] + slot_fields(e) + Seq::<u8>::empty());
            lemma_dec_slot_fields_at(seq![WRAPPED_SLOT_TAG], e, Seq::<u8>::empty());
            assert(s[0] == WRAPPED_SLOT_TAG);
        },
        Some(EventMessageGhost::Transaction(t)) => {
            assert(s =~= seq![WRAPPED_TRANSACTION_TAG] + transaction_fields(t)
                + Seq::<u8>::empty());
            lemma_dec_transaction_fields_at(seq![WRAPPED_TRANSACTION_TAG], t, Seq::<u8>::empty());
            assert(s[0] == WRAPPED_TRANSACTION_TAG);
        },
    }
}

/// Law: raw account decoding undoes raw account encoding.
pub proof fn lemma_raw_account_decodes(v: AccountEventGhost)
    requires
        wf_account(v),
    ensures
        dec_raw_account(spec_encode_raw_account(v)) == Some(v),
{
    broadcast use lemma_enc_u64_len, lemma_enc_bytes_len;

    let s = spec_encode_raw_account(v);
    assert(s =~= seq![RAW_ACCOUNT_TAG] + account_fields(v) + Seq::<u8>::empty());
    lemma_dec_account_fields_at(seq![RAW_ACCOUNT_TAG], v, Seq::<u8>::empty());
    assert(s[0] == RAW_ACCOUNT_TAG);
}

/// Law: raw slot-status decoding undoes raw slot-status encoding.
pub proof fn lemma_raw_slot_decodes(v: SlotStatusEvent)
    ensures
        dec_raw_slot(spec_encode_raw_slot(v)) == Some(v),
{
    broadcast use lemma_enc_u64_len;

    let s = spec_encode_raw_slot(v);
    assert(s =~= seq![RAW_SLOT_TAG] + slot_fields(v) + Seq::<u8>::empty());
    lemma_dec_slot_fields_at(seq![RAW_SLOT_TAG], v, Seq::<u8>::empty());
    assert(s[0] == RAW_SLOT_TAG);
}

/// Law: raw transaction decoding undoes raw transaction encoding.
pub proof fn lemma_raw_transaction_decodes(v: TransactionEventGhost)
    requires
        wf_transaction(v),
    ensures
        dec_raw_transaction(spec_encode_raw_transaction(v)) == Some(v),
{
    broadcast use lemma_enc_u64_len, lemma_enc_u32_len, lemma_enc_bytes_len;

    let s = spec_encode_raw_transaction(v);
    assert(s =~= seq![RAW_TRANSACTION_TAG] + transaction_fields(v) + Seq::<u8>::empty());
    lemma_dec_transaction_fields_at(seq![RAW_TRANSACTION_TAG], v, Seq::<u8>::empty());
    assert(s[0] == RAW_TRANSACTION_TAG);
}

/// Law: in wrapped mode, decoding an encoded event gives back the event,
/// whatever the topic name is.
pub proof fn lemma_wrapped_round_trip(m: EventMessageGhost, topic: Seq<char>)
    requires
        wf_message(m),
    ensures
        spec_decode_event(topic, spec_encode_envelope(Some(m))) == Some(m),
{
    lemma_envelope_round_trip(Some(m));
}

/// Law: in unwrapped mode, an encoded account event decodes back on any
/// topic whose name holds the account kind word.
pub proof fn lemma_raw_account_round_trip(v: AccountEventGhost, topic: Seq<char>)
    requires
        wf_account(v),
        contains_sub(topic, account_word()),
    ensures
        spec_decode_event(topic, spec_encode_raw_account(v)) == Some(
            EventMessageGhost::Account(v),
        ),
{
    let s = spec_encode_raw_account(v);
    assert(s[0] == RAW_ACCOUNT_TAG);
    assert(dec_envelope(s) is None);
    lemma_raw_account_decodes(v);
}

/// Law: in unwrapped mode, an encoded slot-status event decodes back on
/// any topic whose name holds the slot kind word and not the account one.
pub proof fn lemma_raw_slot_round_trip(v: SlotStatusEvent, topic: Seq<char>)
    requires
        contains_sub(topic, slot_word()),
        !contains_sub(topic, account_word()),
    ensures
        spec_decode_event(topic, spec_encode_raw_slot(v)) == Some(EventMessageGhost::Slot(v)),
{
    let s = spec_encode_raw_slot(v);
    assert(s[0] == RAW_SLOT_TAG);
    assert(dec_envelope(s) is None);
    lemma_raw_slot_decodes(v);
}

/// Law: in unwrapped mode, an encoded transaction event decodes back on
/// any topic whose name holds the transaction kind word and neither of
/// the other two.
pub proof fn lemma_raw_transaction_round_trip(v: TransactionEventGhost, topic: Seq<char>)
    requires
        wf_transaction(v),
        contains_sub(topic, transaction_word()),
        !contains_sub(topic, account_word()),
        !contains_sub(topic, slot_word()),
    ensures
        spec_decode_event(topic, spec_encode_raw_transaction(v)) == Some(
            EventMessageGhost::Transaction(v),
        ),
{
    let s = spec_encode_raw_transaction(v);
    assert(s[0] == RAW_TRANSACTION_TAG);
    assert(dec_envelope(s) is None);
    lemma_raw_transaction_decodes(v);
}

} // verus!
