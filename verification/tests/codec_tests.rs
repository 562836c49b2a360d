use heimdall::codec::{decode_event, encode_with_wrapper};
use heimdall::events::{
    EventMessage, MessageWrapper, SlotStatus, SlotStatusEvent, TransactionEvent,
    TransactionStatusMeta, UpdateAccountEvent,
};

fn sample_account() -> UpdateAccountEvent {
    UpdateAccountEvent::new(
        42,
        vec![1u8; 32],
        1_000_000,
        vec![2u8; 32],
        true,
        361,
        vec![9, 8, 7],
        5,
        Some(vec![3u8; 64]),
    )
}

fn sample_transaction() -> TransactionEvent {
    TransactionEvent::new(
        vec![5u8; 64],
        false,
        Some(TransactionStatusMeta {
            is_status_err: false,
            fee: 5000,
            num_instructions: 3,
            num_accounts: 7,
            compute_units_consumed: Some(1234),
        }),
        77,
        11,
    )
}

#[test]
fn raw_account_round_trip() {
    let ev = sample_account();
    let bytes = ev.encode_to_vec();
    let back = UpdateAccountEvent::decode(&bytes).expect("decodes");
    assert_eq!(back, ev);
}

#[test]
fn raw_slot_round_trip() {
    let ev = SlotStatusEvent::new(9, 8, SlotStatus::Confirmed);
    let bytes = ev.encode_to_vec();
    let back = SlotStatusEvent::decode(&bytes).expect("decodes");
    assert_eq!(back, ev);
}

#[test]
fn raw_transaction_round_trip() {
    let ev = sample_transaction();
    let bytes = ev.encode_to_vec();
    let back = TransactionEvent::decode(&bytes).expect("decodes");
    assert_eq!(back, ev);
}

#[test]
fn raw_transaction_without_meta_round_trip() {
    let ev = TransactionEvent::new(vec![1, 2, 3], true, None, 1, 0);
    let bytes = ev.encode_to_vec();
    let back = TransactionEvent::decode(&bytes).expect("decodes");
    assert_eq!(back, ev);
}

#[test]
fn wrapped_round_trip_all_kinds() {
    let msgs = vec![
        EventMessage::Account(sample_account()),
        EventMessage::Slot(SlotStatusEvent::new(1, 0, SlotStatus::Rooted)),
        EventMessage::Transaction(sample_transaction()),
    ];
    for msg in msgs {
        let bytes = encode_with_wrapper(&msg);
        let wrapper = MessageWrapper::decode(&bytes).expect("envelope decodes");
        assert_eq!(wrapper.event_message, Some(msg));
    }
}

#[test]
fn empty_wrapper_round_trip() {
    let w = MessageWrapper { event_message: None };
    let bytes = w.encode_to_vec();
    assert_eq!(bytes, vec![0u8]);
    let back = MessageWrapper::decode(&bytes).expect("decodes");
    assert_eq!(back.event_message, None);
}

#[test]
fn slot_encoding_exact_bytes() {
    let ev = SlotStatusEvent::new(1, 2, SlotStatus::Rooted);
    let bytes = ev.encode_to_vec();
    let expected = vec![
        0x73, // raw slot schema byte
        1, 0, 0, 0, 0, 0, 0, 0, // slot, little endian
        2, 0, 0, 0, 0, 0, 0, 0, // parent, little endian
        1,    // Rooted
    ];
    assert_eq!(bytes, expected);
}

#[test]
fn wrapped_slot_encoding_exact_bytes() {
    let ev = SlotStatusEvent::new(3, 0, SlotStatus::Processed);
    let bytes = encode_with_wrapper(&EventMessage::Slot(ev));
    let expected = vec![
        0x53, // envelope tag for a slot event
        3, 0, 0, 0, 0, 0, 0, 0, // slot
        0, 0, 0, 0, 0, 0, 0, 0, // parent
        0,    // Processed
    ];
    assert_eq!(bytes, expected);
}

#[test]
fn unrecognized_status_byte_decodes_to_unknown() {
    let mut bytes = SlotStatusEvent::new(4, 3, SlotStatus::Processed).encode_to_vec();
    let last = bytes.len() - 1;
    bytes[last] = 99;
    let back = SlotStatusEvent::decode(&bytes).expect("decodes");
    assert_eq!(back.status, SlotStatus::Unknown);
}

#[test]
fn decode_event_wrapped_ignores_topic() {
    let ev = sample_account();
    let bytes = encode_with_wrapper(&EventMessage::Account(ev.clone()));
    let got = decode_event("anything-at-all", &bytes).expect("decodes");
    assert_eq!(got, EventMessage::Account(ev));
}

#[test]
fn decode_event_raw_selects_by_topic_substring() {
    let ev = sample_account();
    let bytes = ev.encode_to_vec();
    let got = decode_event("solana.accounts", &bytes).expect("decodes");
    assert_eq!(got, EventMessage::Account(ev));

    let slot_ev = SlotStatusEvent::new(10, 9, SlotStatus::Completed);
    let slot_bytes = slot_ev.encode_to_vec();
    let got = decode_event("my-slot-feed", &slot_bytes).expect("decodes");
    assert_eq!(got, EventMessage::Slot(slot_ev));

    let tx_ev = sample_transaction();
    let tx_bytes = tx_ev.encode_to_vec();
    let got = decode_event("transaction-log", &tx_bytes).expect("decodes");
    assert_eq!(got, EventMessage::Transaction(tx_ev));
}

#[test]
fn decode_event_wrong_topic_drops_raw_payload() {
    let ev = sample_account();
    let bytes = ev.encode_to_vec();
    // No kind word in the topic: the raw fallback tries nothing.
    assert_eq!(decode_event("other", &bytes), None);
    // The slot schema is tried and fails on an account payload.
    assert_eq!(decode_event("slot", &bytes), None);
}

#[test]
fn decode_rejects_garbage() {
    assert_eq!(decode_event("accounts", &[]), None);
    assert_eq!(decode_event("accounts", &[0xFF, 1, 2, 3]), None);
    assert_eq!(MessageWrapper::decode(&[]), None);
    assert_eq!(UpdateAccountEvent::decode(&[0x61]), None);
}

#[test]
fn decode_rejects_trailing_bytes() {
    let mut bytes = SlotStatusEvent::new(1, 1, SlotStatus::Dead).encode_to_vec();
    bytes.push(0);
    assert_eq!(SlotStatusEvent::decode(&bytes), None);
}

#[test]
fn decode_rejects_invalid_presence_byte() {
    let ev = TransactionEvent::new(vec![1], true, None, 1, 1);
    let mut bytes = ev.encode_to_vec();
    // The presence byte of the result summary sits after the signature
    // bytes and the vote flag; force it to an invalid value.
    let pos = 1 + 8 + 1 + 1;
    bytes[pos] = 2;
    assert_eq!(TransactionEvent::decode(&bytes), None);
}

#[test]
fn largest_values_round_trip() {
    let ev = UpdateAccountEvent::new(
        u64::MAX,
        vec![0xFFu8; 32],
        u64::MAX,
        vec![0u8; 32],
        false,
        u64::MAX,
        Vec::new(),
        u64::MAX,
        None,
    );
    let back = UpdateAccountEvent::decode(&ev.encode_to_vec()).expect("decodes");
    assert_eq!(back, ev);
}
