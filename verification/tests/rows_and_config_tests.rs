use heimdall::config::{Config, ConfigFilter};
use heimdall::consumer_config::{default_batch_size, default_flush_interval};
use heimdall::events::{
    SlotStatus, SlotStatusEvent, TransactionEvent, TransactionStatusMeta, UpdateAccountEvent,
};
use heimdall::heimdall::Heimdall;
use heimdall::rows::{AccountRow, SlotRow, TransactionRow};

#[test]
fn account_row_renders_base58_and_stamps_time() {
    let ev = UpdateAccountEvent::new(
        12,
        vec![0u8; 32],
        77,
        vec![0u8; 32],
        true,
        3,
        vec![1, 2, 3, 4, 5],
        8,
        Some(vec![0u8; 64]),
    );
    let row = AccountRow::from_event(&ev, 1700000000);
    // A zero key renders as thirty-two base58 ones; an unchanged byte
    // string would render differently.
    assert_eq!(row.pubkey, "1".repeat(32));
    assert_eq!(row.owner, "1".repeat(32));
    assert_eq!(row.txn_signature, Some("1".repeat(64)));
    assert_eq!(row.slot, 12);
    assert_eq!(row.lamports, 77);
    assert!(row.executable);
    assert_eq!(row.rent_epoch, 3);
    assert_eq!(row.data_len, 5);
    assert_eq!(row.write_version, 8);
    assert_eq!(row.created_at, 1700000000);
}

#[test]
fn account_row_base58_matches_the_crate() {
    let pk: Vec<u8> = (0..32).collect();
    let ev = UpdateAccountEvent::new(1, pk.clone(), 0, pk.clone(), false, 0, vec![], 0, None);
    let row = AccountRow::from_event(&ev, 0);
    assert_eq!(row.pubkey, bs58::encode(&pk).into_string());
}

#[test]
fn slot_row_names_every_status() {
    let cases = vec![
        (SlotStatus::Processed, "Processed"),
        (SlotStatus::Rooted, "Rooted"),
        (SlotStatus::Confirmed, "Confirmed"),
        (SlotStatus::FirstShredReceived, "FirstShredReceived"),
        (SlotStatus::Completed, "Completed"),
        (SlotStatus::CreatedBank, "CreatedBank"),
        (SlotStatus::Dead, "Dead"),
        (SlotStatus::Unknown, "Unknown"),
    ];
    for (status, name) in cases {
        let row = SlotRow::from_event(&SlotStatusEvent::new(5, 4, status), 9);
        assert_eq!(row.status, name);
        assert_eq!(row.slot, 5);
        assert_eq!(row.parent, 4);
        assert_eq!(row.created_at, 9);
    }
}

#[test]
fn transaction_row_copies_the_result_summary() {
    let ev = TransactionEvent::new(
        vec![7u8; 64],
        false,
        Some(TransactionStatusMeta {
            is_status_err: true,
            fee: 5000,
            num_instructions: 4,
            num_accounts: 9,
            compute_units_consumed: Some(321),
        }),
        88,
        2,
    );
    let row = TransactionRow::from_event(&ev, 10);
    assert!(!row.is_successful);
    assert_eq!(row.fee, 5000);
    assert_eq!(row.num_instructions, 4);
    assert_eq!(row.num_accounts, 9);
    assert_eq!(row.compute_units_consumed, Some(321));
    assert_eq!(row.signature, bs58::encode(&vec![7u8; 64]).into_string());
}

#[test]
fn transaction_row_without_summary_counts_as_successful() {
    let ev = TransactionEvent::new(vec![1], true, None, 1, 0);
    let row = TransactionRow::from_event(&ev, 0);
    assert!(row.is_successful);
    assert_eq!(row.fee, 0);
    assert_eq!(row.num_instructions, 0);
    assert_eq!(row.num_accounts, 0);
    assert_eq!(row.compute_units_consumed, None);
    assert!(row.is_vote);
}

#[test]
fn fill_defaults_adds_the_four_broker_properties() {
    let mut cfg = Config::default();
    cfg.fill_defaults();
    let map: Vec<(String, String)> = cfg.kafka;
    assert_eq!(map.len(), 4);
    assert!(map.contains(&("request.required.acks".to_string(), "1".to_string())));
    assert!(map.contains(&("message.timeout.ms".to_string(), "30000".to_string())));
    assert!(map.contains(&("compression.type".to_string(), "lz4".to_string())));
    assert!(map.contains(&("partitioner".to_string(), "murmur2_random".to_string())));
}

#[test]
fn fill_defaults_keeps_configured_values() {
    let mut cfg = Config::default();
    cfg.kafka.push(("compression.type".to_string(), "zstd".to_string()));
    cfg.fill_defaults();
    assert!(cfg.kafka.contains(&("compression.type".to_string(), "zstd".to_string())));
    assert!(!cfg.kafka.contains(&("compression.type".to_string(), "lz4".to_string())));
    assert_eq!(cfg.kafka.len(), 4);
}

#[test]
fn plugin_config_default_values() {
    let cfg = Config::default();
    assert_eq!(cfg.libpath, "");
    assert!(cfg.kafka.is_empty());
    assert_eq!(cfg.shutdown_timeout_ms, 30000);
    assert!(cfg.filters.is_empty());
}

#[test]
fn filter_block_default_values() {
    let f = ConfigFilter::default();
    assert_eq!(f.update_account_topic, "");
    assert_eq!(f.slot_status_topic, "");
    assert_eq!(f.transaction_topic, "");
    assert!(f.program_ignores.is_empty());
    assert!(f.account_ignores.is_empty());
    assert!(f.program_filters.is_empty());
    assert!(f.account_filters.is_empty());
    assert!(!f.publish_all_accounts);
    assert!(f.include_vote_transactions);
    assert!(f.include_failed_transactions);
    assert!(!f.wrap_messages);
}

#[test]
fn consumer_defaults() {
    assert_eq!(default_batch_size(), 1000);
    assert_eq!(default_flush_interval(), 5000);
}

#[test]
fn heimdall_handle_constructs() {
    let h = Heimdall::new();
    let d = Heimdall::default();
    assert_eq!(format!("{:?}", h), format!("{:?}", d));
}
