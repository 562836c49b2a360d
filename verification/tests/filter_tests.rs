use heimdall::config::ConfigFilter;
use heimdall::filter::Filter;

fn key(b: u8) -> Vec<u8> {
    vec![b; 32]
}

fn bare_filter() -> Filter {
    Filter {
        publish_all_accounts: false,
        program_ignores: Vec::new(),
        account_ignores: Vec::new(),
        program_filters: Vec::new(),
        account_filters: Vec::new(),
        include_vote_transactions: true,
        include_failed_transactions: true,
        update_account_topic: String::new(),
        slot_status_topic: String::new(),
        transaction_topic: String::new(),
        wrap_messages: false,
    }
}

#[test]
fn ignored_program_is_never_wanted() {
    let mut f = bare_filter();
    f.program_ignores = vec![key(7)];
    assert!(!f.wants_program(&key(7)));
}

#[test]
fn ignore_wins_over_allow_list() {
    let mut f = bare_filter();
    f.program_ignores = vec![key(7)];
    f.program_filters = vec![key(7)];
    assert!(!f.wants_program(&key(7)));
}

#[test]
fn ignored_account_is_never_wanted() {
    let mut f = bare_filter();
    f.account_ignores = vec![key(9)];
    f.account_filters = vec![key(9)];
    assert!(!f.wants_account(&key(9)));
}

#[test]
fn empty_allow_list_wants_everything_not_ignored() {
    let mut f = bare_filter();
    f.program_ignores = vec![key(7)];
    assert!(f.wants_program(&key(8)));
    assert!(f.wants_account(&key(8)));
}

#[test]
fn non_empty_allow_list_decides_membership() {
    let mut f = bare_filter();
    f.program_filters = vec![key(1), key(2)];
    assert!(f.wants_program(&key(1)));
    assert!(f.wants_program(&key(2)));
    assert!(!f.wants_program(&key(3)));
}

#[test]
fn non_empty_account_allow_list_decides_membership() {
    let mut f = bare_filter();
    f.account_filters = vec![key(4)];
    assert!(f.wants_account(&key(4)));
    assert!(!f.wants_account(&key(5)));
}

#[test]
fn wrong_length_identifier_is_rejected() {
    let f = bare_filter();
    assert!(!f.wants_program(&[0u8; 31]));
    assert!(!f.wants_program(&[0u8; 33]));
    assert!(!f.wants_program(&[]));
    assert!(!f.wants_account(&[1u8; 16]));
}

#[test]
fn transaction_toggles_are_returned() {
    let mut f = bare_filter();
    assert!(f.wants_vote_tx());
    assert!(f.wants_failed_tx());
    f.include_vote_transactions = false;
    f.include_failed_transactions = false;
    assert!(!f.wants_vote_tx());
    assert!(!f.wants_failed_tx());
}

#[test]
fn topic_presence_follows_configuration() {
    let mut f = bare_filter();
    assert!(!f.has_account_topic());
    assert!(!f.has_slot_topic());
    assert!(!f.has_transaction_topic());
    f.update_account_topic = "accounts".to_string();
    f.slot_status_topic = "slots".to_string();
    f.transaction_topic = "transactions".to_string();
    assert!(f.has_account_topic());
    assert!(f.has_slot_topic());
    assert!(f.has_transaction_topic());
}

#[test]
fn filter_new_parses_base58_identifiers() {
    let mut cfg = ConfigFilter::default();
    // The all-ones base58 string denotes the 32-byte zero key.
    cfg.program_ignores = vec!["11111111111111111111111111111111".to_string()];
    let f = Filter::new(&cfg);
    // The zero key is ignored; the ASCII bytes of the string are not a
    // parsed key, so a filter that kept the text unchanged would fail here.
    assert!(!f.wants_program(&[0u8; 32]));
    assert!(f.wants_program(&[0x31u8; 32]));
}

#[test]
fn filter_new_skips_unparsable_entries() {
    let mut cfg = ConfigFilter::default();
    cfg.program_filters = vec![
        "not a key!".to_string(),
        "11111111111111111111111111111111".to_string(),
    ];
    let f = Filter::new(&cfg);
    // Only the parsable entry counts: the allow-list is non-empty and
    // holds exactly the zero key.
    assert!(f.wants_program(&[0u8; 32]));
    assert!(!f.wants_program(&[1u8; 32]));
}

#[test]
fn filter_new_copies_toggles_and_topics() {
    let mut cfg = ConfigFilter::default();
    cfg.update_account_topic = "acc".to_string();
    cfg.slot_status_topic = "sl".to_string();
    cfg.transaction_topic = "tx".to_string();
    cfg.publish_all_accounts = true;
    cfg.include_vote_transactions = false;
    cfg.include_failed_transactions = false;
    cfg.wrap_messages = true;
    let f = Filter::new(&cfg);
    assert_eq!(f.update_account_topic, "acc");
    assert_eq!(f.slot_status_topic, "sl");
    assert_eq!(f.transaction_topic, "tx");
    assert!(f.publish_all_accounts);
    assert!(!f.include_vote_transactions);
    assert!(!f.include_failed_transactions);
    assert!(f.wrap_messages);
}
