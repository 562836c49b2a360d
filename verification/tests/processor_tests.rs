use heimdall::consumer::ConsumerEvent;
use heimdall::events::{SlotStatus, SlotStatusEvent, UpdateAccountEvent};
use heimdall::processor::{Processor, SinkBatch};

fn account_payload(slot: u64) -> Vec<u8> {
    UpdateAccountEvent::new(
        slot,
        vec![1u8; 32],
        10,
        vec![2u8; 32],
        false,
        0,
        vec![1, 2],
        1,
        None,
    )
    .encode_to_vec()
}

#[test]
fn flush_all_on_empty_buffers_issues_zero_sink_calls() {
    let mut p = Processor::new(10);
    let flushed = p.flush_all();
    assert!(flushed.accounts.is_none());
    assert!(flushed.slots.is_none());
    assert!(flushed.transactions.is_none());
}

#[test]
fn reaching_batch_size_flushes_that_buffer_and_empties_it() {
    let mut p = Processor::new(2);
    let r1 = p.process_message_at("accounts", &account_payload(1), 100);
    assert!(r1.decoded);
    assert!(r1.flush.is_none());
    assert_eq!(p.buffered_counts(), (1, 0, 0));

    let r2 = p.process_message_at("accounts", &account_payload(2), 101);
    assert!(r2.decoded);
    match r2.flush {
        Some(SinkBatch::Accounts(rows)) => {
            assert_eq!(rows.len(), 2);
            assert_eq!(rows[0].slot, 1);
            assert_eq!(rows[1].slot, 2);
            assert_eq!(rows[0].created_at, 100);
            assert_eq!(rows[1].created_at, 101);
        }
        _ => panic!("expected an account batch"),
    }
    assert_eq!(p.buffered_counts(), (0, 0, 0));
}

#[test]
fn scenario_three_account_events_with_batch_size_two() {
    let mut p = Processor::new(2);
    let r1 = p.process_message_at("accounts", &account_payload(1), 7);
    assert!(r1.flush.is_none());
    let r2 = p.process_message_at("accounts", &account_payload(2), 7);
    match r2.flush {
        Some(SinkBatch::Accounts(rows)) => assert_eq!(rows.len(), 2),
        _ => panic!("the second arrival must trigger one insert of two rows"),
    }
    let r3 = p.process_message_at("accounts", &account_payload(3), 7);
    assert!(r3.flush.is_none());
    assert_eq!(p.buffered_counts(), (1, 0, 0));

    // The third event stays buffered until a timer tick or shutdown.
    let flushed = p.flush_all();
    let rows = flushed.accounts.expect("one insert for the leftover row");
    assert_eq!(rows.len(), 1);
    assert_eq!(rows[0].slot, 3);
    assert!(flushed.slots.is_none());
    assert!(flushed.transactions.is_none());
}

#[test]
fn scenario_undecodable_slot_payload_is_skipped_and_acknowledged() {
    let mut p = Processor::new(5);
    // Fails envelope decode and raw slot decode alike.
    let garbage = vec![0xFFu8, 0x00, 0x01];
    let step = p.handle_event_at(&ConsumerEvent::Message("slot".to_string(), garbage), 50);
    let outcome = step.outcome.expect("a message yields an outcome");
    assert!(!outcome.decoded);
    assert!(outcome.flush.is_none());
    assert!(step.acknowledge);
    assert!(!step.stop);
    assert_eq!(p.buffered_counts(), (0, 0, 0));
}

#[test]
fn flush_tick_flushes_everything_and_continues() {
    let mut p = Processor::new(10);
    p.process_message_at("accounts", &account_payload(4), 1);
    let slot_payload = SlotStatusEvent::new(5, 4, SlotStatus::Rooted).encode_to_vec();
    p.process_message_at("slots", &slot_payload, 2);
    let step = p.handle_event_at(&ConsumerEvent::FlushTick, 3);
    assert!(!step.stop);
    assert!(!step.acknowledge);
    let flushed = step.flush.expect("a tick flushes");
    assert_eq!(flushed.accounts.expect("accounts flushed").len(), 1);
    let slots = flushed.slots.expect("slots flushed");
    assert_eq!(slots.len(), 1);
    assert_eq!(slots[0].status, "Rooted");
    assert!(flushed.transactions.is_none());
    assert_eq!(p.buffered_counts(), (0, 0, 0));
}

#[test]
fn shutdown_flushes_once_more_and_stops() {
    let mut p = Processor::new(10);
    p.process_message_at("accounts", &account_payload(6), 1);
    let step = p.handle_event_at(&ConsumerEvent::Shutdown, 2);
    assert!(step.stop);
    let flushed = step.flush.expect("shutdown flushes");
    assert_eq!(flushed.accounts.expect("accounts flushed").len(), 1);
    assert_eq!(p.buffered_counts(), (0, 0, 0));
}

#[test]
fn zero_batch_size_flushes_every_append() {
    let mut p = Processor::new(0);
    let r = p.process_message_at("accounts", &account_payload(1), 1);
    match r.flush {
        Some(SinkBatch::Accounts(rows)) => assert_eq!(rows.len(), 1),
        _ => panic!("expected an immediate flush"),
    }
    assert_eq!(p.buffered_counts(), (0, 0, 0));
}

#[test]
fn buffers_are_independent_per_kind() {
    let mut p = Processor::new(2);
    p.process_message_at("accounts", &account_payload(1), 1);
    let slot_payload = SlotStatusEvent::new(2, 1, SlotStatus::Processed).encode_to_vec();
    let r = p.process_message_at("slots", &slot_payload, 1);
    assert!(r.flush.is_none());
    assert_eq!(p.buffered_counts(), (1, 1, 0));
}

#[test]
fn process_message_uses_the_clock() {
    let mut p = Processor::new(2);
    let r = p.process_message("accounts", &account_payload(1));
    assert!(r.decoded);
    assert_eq!(p.buffered_counts(), (1, 0, 0));
}
