use collect_fee::errors::CollectError;
use collect_fee::states::{BroadcastState, BroadcastsState, FeeValue, LedgerFile, SavePlan};

fn record(tag: &str) -> BroadcastState {
    BroadcastState {
        admin: format!("admin-{tag}"),
        block_number: "12".to_string(),
        chain_id: "11155111".to_string(),
        chain_name: "sepolia".to_string(),
        contract_address: format!("contract-{tag}"),
        contract_name: "lockup".to_string(),
        fee_collected: FeeValue::Text("50".to_string()),
        timestamp_utc: "2024-01-02 03:04:05".to_string(),
        tx_hash: format!("0x{tag}"),
    }
}

#[test]
fn missing_file_gives_empty_ledger_written_at_once() {
    let (ledger, write_now) =
        BroadcastsState::read_or_create("data/broadcasts.json".to_string(), LedgerFile::Missing)
            .unwrap();
    assert!(write_now);
    assert!(ledger.broadcasts().is_empty());
    assert_eq!(ledger.file_name(), "data/broadcasts.json");
}

#[test]
fn parsed_file_gives_its_records_in_order() {
    let records = vec![record("a"), record("b"), record("c")];
    let (ledger, write_now) = BroadcastsState::read_or_create(
        "broadcasts.json".to_string(),
        LedgerFile::Records(records.clone()),
    )
    .unwrap();
    assert!(!write_now);
    assert_eq!(ledger.broadcasts(), &records);
}

#[test]
fn malformed_file_fails_the_run() {
    let opened =
        BroadcastsState::read_or_create("broadcasts.json".to_string(), LedgerFile::Malformed);
    assert_eq!(opened.err(), Some(CollectError::ConfigurationError));
}

#[test]
fn records_are_appended_in_order() {
    let mut ledger = BroadcastsState::new("b.json".to_string(), vec![record("old")]);
    ledger.update_and_save(record("first"));
    ledger.update_and_save(record("second"));
    assert_eq!(ledger.broadcasts(), &vec![record("old"), record("first"), record("second")]);
    assert_eq!(ledger.file_name(), "b.json");
}

#[test]
fn save_goes_through_the_temporary_file() {
    let mut ledger = BroadcastsState::new("data/b.json".to_string(), vec![]);
    let expected =
        SavePlan { temporary: "data/b.json.tmp".to_string(), target: "data/b.json".to_string() };
    assert_eq!(ledger.save_to_file(), expected);
    assert_eq!(ledger.update_and_save(record("x")), expected);
    assert_ne!(expected.temporary, expected.target);
}

#[test]
fn fee_value_keeps_text_and_other_json_apart() {
    assert_ne!(FeeValue::Text("50".to_string()), FeeValue::Json("50".to_string()));
    let mut numeric = record("n");
    numeric.fee_collected = FeeValue::Json("50".to_string());
    let ledger = BroadcastsState::new("b.json".to_string(), vec![numeric.clone()]);
    assert_eq!(ledger.broadcasts()[0], numeric);
}
