use heimdall::events::{
    EventMessage, MessageWrapper, SlotStatus, SlotStatusEvent, TransactionEvent,
    TransactionStatusMeta, UpdateAccountEvent,
};
use heimdall::filter::Filter;
use heimdall::publisher::{
    account_message, account_publish_message, copy_and_prepend, slot_publish_message,
    slot_status_message, transaction_message, transaction_publish_message,
};

fn account_event() -> UpdateAccountEvent {
    UpdateAccountEvent::new(
        3,
        vec![0xAAu8; 32],
        5,
        vec![0xBBu8; 32],
        false,
        0,
        vec![],
        9,
        None,
    )
}

fn open_filter() -> Filter {
    Filter {
        publish_all_accounts: false,
        program_ignores: Vec::new(),
        account_ignores: Vec::new(),
        program_filters: Vec::new(),
        account_filters: Vec::new(),
        include_vote_transactions: true,
        include_failed_transactions: true,
        update_account_topic: "accounts".to_string(),
        slot_status_topic: "slots".to_string(),
        transaction_topic: "transactions".to_string(),
        wrap_messages: false,
    }
}

#[test]
fn copy_and_prepend_prefixes_one_byte() {
    let out = copy_and_prepend(&[1, 2, 3], 0x41);
    assert_eq!(out, vec![0x41, 1, 2, 3]);
}

#[test]
fn unwrapped_account_key_is_the_pubkey() {
    let ev = account_event();
    let (key, payload) = account_message(&ev, false);
    assert_eq!(key, vec![0xAAu8; 32]);
    assert_eq!(payload, ev.encode_to_vec());
}

#[test]
fn wrapped_keys_begin_with_the_kind_prefix() {
    let ev = account_event();
    let (key, _) = account_message(&ev, true);
    assert_eq!(key[0], 0x41);
    assert_eq!(&key[1..], &[0xAAu8; 32][..]);

    let slot_ev = SlotStatusEvent::new(0x0102030405060708, 0, SlotStatus::Rooted);
    let (key, _) = slot_status_message(&slot_ev, true);
    assert_eq!(key[0], 0x53);
    assert_eq!(&key[1..], &[8, 7, 6, 5, 4, 3, 2, 1][..]);

    let tx_ev = TransactionEvent::new(vec![0xCCu8; 64], false, None, 1, 0);
    let (key, _) = transaction_message(&tx_ev, true);
    assert_eq!(key[0], 0x54);
    assert_eq!(&key[1..], &[0xCCu8; 64][..]);
}

#[test]
fn unwrapped_slot_key_is_little_endian_slot() {
    let slot_ev = SlotStatusEvent::new(513, 0, SlotStatus::Processed);
    let (key, _) = slot_status_message(&slot_ev, false);
    assert_eq!(key, vec![1, 2, 0, 0, 0, 0, 0, 0]);
}

#[test]
fn key_derivation_is_deterministic() {
    let ev = account_event();
    let (k1, p1) = account_message(&ev, true);
    let (k2, p2) = account_message(&ev, true);
    assert_eq!(k1, k2);
    assert_eq!(p1, p2);
}

#[test]
fn wrapped_payload_decodes_as_envelope() {
    let ev = account_event();
    let (_, payload) = account_message(&ev, true);
    let wrapper = MessageWrapper::decode(&payload).expect("an envelope");
    assert_eq!(wrapper.event_message, Some(EventMessage::Account(ev)));
}

#[test]
fn scenario_ignored_program_never_reaches_encode() {
    let mut f = open_filter();
    // The owning program is both ignored and allow-listed: ignore wins.
    f.program_ignores = vec![vec![0xBBu8; 32]];
    f.program_filters = vec![vec![0xBBu8; 32]];
    let ev = account_event();
    assert!(account_publish_message(&f, &ev).is_none());
}

#[test]
fn wanted_account_event_is_encoded() {
    let f = open_filter();
    let ev = account_event();
    let (key, payload) = account_publish_message(&f, &ev).expect("published");
    assert_eq!(key, vec![0xAAu8; 32]);
    assert_eq!(payload, ev.encode_to_vec());
}

#[test]
fn missing_topic_suppresses_publishing() {
    let mut f = open_filter();
    f.update_account_topic = String::new();
    f.slot_status_topic = String::new();
    f.transaction_topic = String::new();
    assert!(account_publish_message(&f, &account_event()).is_none());
    let slot_ev = SlotStatusEvent::new(1, 0, SlotStatus::Rooted);
    assert!(slot_publish_message(&f, &slot_ev).is_none());
    let tx_ev = TransactionEvent::new(vec![1], false, None, 1, 0);
    assert!(transaction_publish_message(&f, &tx_ev).is_none());
}

#[test]
fn vote_and_failed_transactions_follow_the_toggles() {
    let mut f = open_filter();
    f.include_vote_transactions = false;
    f.include_failed_transactions = false;
    let vote = TransactionEvent::new(vec![1], true, None, 1, 0);
    assert!(transaction_publish_message(&f, &vote).is_none());
    let failed = TransactionEvent::new(
        vec![2],
        false,
        Some(TransactionStatusMeta {
            is_status_err: true,
            fee: 1,
            num_instructions: 0,
            num_accounts: 0,
            compute_units_consumed: None,
        }),
        1,
        0,
    );
    assert!(transaction_publish_message(&f, &failed).is_none());
    let ok = TransactionEvent::new(vec![3], false, None, 1, 0);
    assert!(transaction_publish_message(&f, &ok).is_some());
}
