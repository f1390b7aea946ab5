use collect_fee::collect_fees::{
    build_record, collect_fees_generic, collect_fees_on_chain, contract_targets, receipt_arrived,
    start_collection, Action, ContractKind, ContractTarget, Event, Phase,
};
use collect_fee::errors::{CollectError, RpcCall};
use collect_fee::events::{direct_signature, factory_signature, Log, ReceiptEnvelope, TransactionReceipt};
use collect_fee::rpc_methods::{RpcOutcome, MAX_RETRIES, RETRY_DELAY_SECS};
use collect_fee::states::{
    BroadcastState, BroadcastsState, CampaignDeploymentsByFactory, DeploymentsByChain, FeeValue,
};

const ADMIN: [u8; 20] = [
    0xd8, 0xda, 0x6b, 0xf2, 0x69, 0x64, 0xaf, 0x9d, 0x7e, 0xed, 0x9e, 0x03, 0xe5, 0x34, 0x15, 0xd3,
    0x7a, 0xa9, 0x60, 0x45,
];
const ADMIN_TEXT: &str = "0xd8dA6BF26964aF9D7eEd9e03E53415D37aA96045";
const LOCKUP_TEXT: &str = "0xaAaAaAaaAaAaAaaAaAAAAAAAAaaaAaAaAaaAaaAa";

fn word(amount: u64) -> [u8; 32] {
    let mut w = [0u8; 32];
    w[24..].copy_from_slice(&amount.to_be_bytes());
    w
}

fn topic(address: [u8; 20]) -> [u8; 32] {
    let mut t = [0u8; 32];
    t[12..].copy_from_slice(&address);
    t
}

fn direct_receipt(admin: [u8; 20], amount: u64, block: Option<u64>, hash: [u8; 32]) -> TransactionReceipt {
    let log = Log { topics: vec![direct_signature(), topic(admin), word(amount)], data: vec![] };
    TransactionReceipt { inner: ReceiptEnvelope::Eip1559(vec![log]), block_number: block, transaction_hash: hash }
}

fn factory_receipt(admin: [u8; 20], amount: u64) -> TransactionReceipt {
    let log = Log {
        topics: vec![factory_signature(), topic(admin), topic([0x33; 20])],
        data: word(amount).to_vec(),
    };
    TransactionReceipt { inner: ReceiptEnvelope::Eip7702(vec![log]), block_number: Some(1), transaction_hash: [1; 32] }
}

fn received(receipt: TransactionReceipt, at: &str) -> Event {
    Event::Receipt { receipt, timestamp_utc: at.to_string() }
}

fn lockup() -> ContractTarget {
    ContractTarget { address: [0xaa; 20], kind: ContractKind::Lockup, factory: None }
}

fn campaign() -> ContractTarget {
    ContractTarget { address: [0xcc; 20], kind: ContractKind::Campaign, factory: Some([0xfa; 20]) }
}

fn empty_ledger() -> BroadcastsState {
    BroadcastsState::new("broadcasts.json".to_string(), vec![])
}

#[test]
fn sepolia_lockup_collection_is_recorded() {
    let target = lockup();
    let mut ledger = empty_ledger();
    let (phase, action) = start_collection(&target);
    assert_eq!(action, Action::FetchBalance { address: [0xaa; 20], delay_secs: 0 });
    let (phase, action) =
        collect_fees_generic("sepolia", &target, phase, Event::Balance(RpcOutcome::Success(word(100))), &mut ledger);
    assert_eq!(action, Action::FetchChainId { delay_secs: 0 });
    let (phase, action) =
        collect_fees_generic("sepolia", &target, phase, Event::ChainId(RpcOutcome::Success(11155111)), &mut ledger);
    assert_eq!(action, Action::Submit { to: [0xaa; 20], campaign: None });
    assert_eq!(phase, Phase::AwaitReceipt { chain_id: 11155111 });
    assert!(ledger.broadcasts().is_empty());
    let mut hash = [0u8; 32];
    hash[0] = 0x12;
    hash[31] = 0xef;
    let receipt = direct_receipt(ADMIN, 50, Some(4242), hash);
    let (phase, action) =
        collect_fees_generic("sepolia", &target, phase, received(receipt, "2024-05-06 07:08:09"), &mut ledger);
    assert_eq!((phase, action), (Phase::AwaitPersist, Action::Persist));
    let (phase, action) =
        collect_fees_generic("sepolia", &target, phase, Event::Persisted { ok: true }, &mut ledger);
    assert_eq!((phase, action), (Phase::Finished, Action::Finish(Ok(()))));
    let expected = BroadcastState {
        admin: ADMIN_TEXT.to_string(),
        block_number: "4242".to_string(),
        chain_id: "11155111".to_string(),
        chain_name: "sepolia".to_string(),
        contract_address: LOCKUP_TEXT.to_string(),
        contract_name: "lockup".to_string(),
        fee_collected: FeeValue::Text("50".to_string()),
        timestamp_utc: "2024-05-06 07:08:09".to_string(),
        tx_hash: "0x12000000000000000000000000000000000000000000000000000000000000ef".to_string(),
    };
    assert_eq!(ledger.broadcasts(), &vec![expected]);
}

#[test]
fn checksum_text_matches_the_address_bytes() {
    assert_eq!(LOCKUP_TEXT.to_lowercase(), format!("0x{}", "aa".repeat(20)));
    assert_eq!(alloy::primitives::Address::from([0xaa; 20]).to_string(), LOCKUP_TEXT);
}

#[test]
fn zero_balance_submits_nothing_and_leaves_ledger() {
    let target = lockup();
    let mut ledger = empty_ledger();
    let (phase, _) = start_collection(&target);
    let (phase, action) =
        collect_fees_generic("sepolia", &target, phase, Event::Balance(RpcOutcome::Success([0; 32])), &mut ledger);
    assert_eq!(phase, Phase::Finished);
    assert_eq!(action, Action::Finish(Err(CollectError::NoFeesToCollect { address: [0xaa; 20] })));
    assert!(ledger.broadcasts().is_empty());
    let (phase, action) =
        collect_fees_generic("sepolia", &target, phase, Event::ChainId(RpcOutcome::Success(1)), &mut ledger);
    assert_eq!((phase, action), (Phase::Finished, Action::Finish(Err(CollectError::UnexpectedEvent))));
    assert!(ledger.broadcasts().is_empty());
}

#[test]
fn balance_with_only_a_high_byte_is_not_zero() {
    let target = lockup();
    let mut ledger = empty_ledger();
    let mut balance = [0u8; 32];
    balance[0] = 1;
    let (_, action) = collect_fees_generic(
        "sepolia",
        &target,
        Phase::AwaitBalance { attempt: 1 },
        Event::Balance(RpcOutcome::Success(balance)),
        &mut ledger,
    );
    assert_eq!(action, Action::FetchChainId { delay_secs: 0 });
}

#[test]
fn campaign_is_called_through_its_factory() {
    let target = campaign();
    let mut ledger = empty_ledger();
    let (phase, action) = collect_fees_generic(
        "base",
        &target,
        Phase::AwaitChainId { attempt: 1 },
        Event::ChainId(RpcOutcome::Success(8453)),
        &mut ledger,
    );
    assert_eq!(action, Action::Submit { to: [0xfa; 20], campaign: Some([0xcc; 20]) });
    let (_, action) =
        collect_fees_generic("base", &target, phase, received(factory_receipt(ADMIN, 77), "t"), &mut ledger);
    assert_eq!(action, Action::Persist);
    let record = &ledger.broadcasts()[0];
    assert_eq!(record.contract_name, "campaign");
    assert_eq!(record.fee_collected, FeeValue::Text("77".to_string()));
    assert_eq!(record.admin, ADMIN_TEXT);
    assert_eq!(record.contract_address, alloy::primitives::Address::from([0xcc; 20]).to_string());
    assert_eq!(record.chain_id, "8453");
    assert_eq!(record.block_number, "1");
}

#[test]
fn decoding_does_not_depend_on_the_call_path() {
    let mut ledger = empty_ledger();
    let (_, action) = collect_fees_generic(
        "base",
        &campaign(),
        Phase::AwaitReceipt { chain_id: 8453 },
        received(direct_receipt(ADMIN, 5, None, [2; 32]), "t"),
        &mut ledger,
    );
    assert_eq!(action, Action::Persist);
    let (_, action) = collect_fees_generic(
        "base",
        &lockup(),
        Phase::AwaitReceipt { chain_id: 8453 },
        received(factory_receipt(ADMIN, 6), "t"),
        &mut ledger,
    );
    assert_eq!(action, Action::Persist);
    assert_eq!(ledger.broadcasts()[0].fee_collected, FeeValue::Text("5".to_string()));
    assert_eq!(ledger.broadcasts()[0].block_number, "0");
    assert_eq!(ledger.broadcasts()[1].fee_collected, FeeValue::Text("6".to_string()));
}

#[test]
fn rate_limited_balance_gives_up_after_max_retries() {
    let target = lockup();
    let mut ledger = empty_ledger();
    let (mut phase, mut action) = start_collection(&target);
    let mut calls = 0;
    while let Action::FetchBalance { delay_secs, .. } = action {
        calls += 1;
        assert_eq!(delay_secs, if calls == 1 { 0 } else { RETRY_DELAY_SECS });
        let next = collect_fees_generic(
            "sepolia",
            &target,
            phase,
            Event::Balance(RpcOutcome::HttpError { status: 429 }),
            &mut ledger,
        );
        phase = next.0;
        action = next.1;
    }
    assert_eq!(calls, MAX_RETRIES);
    assert_eq!(action, Action::Finish(Err(CollectError::RateLimited { attempts: MAX_RETRIES })));
    assert_eq!(phase, Phase::Finished);
}

#[test]
fn chain_id_failures_give_rpc_failed() {
    let target = lockup();
    let mut ledger = empty_ledger();
    let mut phase = Phase::AwaitChainId { attempt: 1 };
    let mut last = Action::Done;
    for _ in 0..MAX_RETRIES {
        let next =
            collect_fees_generic("sepolia", &target, phase, Event::ChainId(RpcOutcome::Failed), &mut ledger);
        phase = next.0;
        last = next.1;
    }
    assert_eq!(
        last,
        Action::Finish(Err(CollectError::RpcFailed { call: RpcCall::ChainId, attempts: MAX_RETRIES }))
    );
}

#[test]
fn receipt_without_event_and_transport_failure_end_the_collection() {
    let target = lockup();
    let mut ledger = empty_ledger();
    let bare = TransactionReceipt {
        inner: ReceiptEnvelope::Legacy(vec![]),
        block_number: Some(3),
        transaction_hash: [0; 32],
    };
    let next = collect_fees_generic(
        "sepolia",
        &target,
        Phase::AwaitReceipt { chain_id: 1 },
        received(bare, "t"),
        &mut ledger,
    );
    assert_eq!(next, (Phase::Finished, Action::Finish(Err(CollectError::EventNotFound))));
    let next = collect_fees_generic(
        "sepolia",
        &target,
        Phase::AwaitReceipt { chain_id: 1 },
        Event::TransactionFailed,
        &mut ledger,
    );
    assert_eq!(next, (Phase::Finished, Action::Finish(Err(CollectError::TransactionFailed))));
    assert!(ledger.broadcasts().is_empty());
}

#[test]
fn failed_write_surfaces() {
    let mut ledger = empty_ledger();
    let next = collect_fees_generic(
        "sepolia",
        &lockup(),
        Phase::AwaitPersist,
        Event::Persisted { ok: false },
        &mut ledger,
    );
    assert_eq!(next, (Phase::Finished, Action::Finish(Err(CollectError::PersistFailed))));
}

#[test]
fn receipt_event_is_stamped_with_a_time() {
    let receipt = direct_receipt(ADMIN, 1, Some(1), [9; 32]);
    match receipt_arrived(receipt.clone()) {
        Event::Receipt { receipt: held, timestamp_utc } => {
            assert_eq!(held, receipt);
            let bytes = timestamp_utc.as_bytes();
            assert_eq!(bytes.len(), 19);
            assert_eq!(bytes[4], b'-');
            assert_eq!(bytes[7], b'-');
            assert_eq!(bytes[10], b' ');
            assert_eq!(bytes[13], b':');
            assert_eq!(bytes[16], b':');
        }
        other => panic!("unexpected event {other:?}"),
    }
}

#[test]
fn record_is_built_from_receipt_and_target() {
    let receipt = direct_receipt(ADMIN, 1, None, [0xff; 32]);
    let record = build_record(
        "mainnet",
        &campaign(),
        1,
        &receipt,
        "admin".to_string(),
        "12".to_string(),
        "now".to_string(),
    );
    assert_eq!(record.admin, "admin");
    assert_eq!(record.block_number, "0");
    assert_eq!(record.chain_id, "1");
    assert_eq!(record.chain_name, "mainnet");
    assert_eq!(record.contract_name, "campaign");
    assert_eq!(record.fee_collected, FeeValue::Text("12".to_string()));
    assert_eq!(record.timestamp_utc, "now");
    assert_eq!(record.tx_hash, format!("0x{}", "ff".repeat(32)));
    assert_eq!(record.tx_hash, alloy::primitives::B256::from([0xff; 32]).to_string());
}

fn registry() -> DeploymentsByChain {
    DeploymentsByChain {
        chain_id: 11155111,
        lockup: vec![format!("0x{}", "aa".repeat(20)), "BBbbbbbbbbbbbbbbbbbbbbbbbbbbbbbbbbbbbbbb".to_string()],
        flow: vec![format!("0X{}", "0c".repeat(20))],
        merkle_contracts: vec![
            (
                "merkle_factory".to_string(),
                CampaignDeploymentsByFactory {
                    factory_address: format!("0x{}", "fa".repeat(20)),
                    campaigns: vec![format!("0x{}", "c1".repeat(20)), format!("0x{}", "c2".repeat(20))],
                },
            ),
            (
                "empty_factory".to_string(),
                CampaignDeploymentsByFactory { factory_address: format!("0x{}", "fb".repeat(20)), campaigns: vec![] },
            ),
        ],
    }
}

#[test]
fn targets_follow_registry_order() {
    let targets = contract_targets(&registry()).unwrap();
    let expected = vec![
        ContractTarget { address: [0xaa; 20], kind: ContractKind::Lockup, factory: None },
        ContractTarget { address: [0xbb; 20], kind: ContractKind::Lockup, factory: None },
        ContractTarget { address: [0x0c; 20], kind: ContractKind::Flow, factory: None },
        ContractTarget { address: [0xc1; 20], kind: ContractKind::Campaign, factory: Some([0xfa; 20]) },
        ContractTarget { address: [0xc2; 20], kind: ContractKind::Campaign, factory: Some([0xfa; 20]) },
    ];
    assert_eq!(targets, expected);
}

#[test]
fn malformed_addresses_fail_before_any_target() {
    for bad in ["", "0x", "0x1234", "zz", &"a".repeat(39), &"a".repeat(41), &format!("0x{}g", "a".repeat(39)), &format!("0x0x{}", "a".repeat(38))] {
        let mut r = registry();
        r.flow.push(bad.to_string());
        assert_eq!(contract_targets(&r), Err(CollectError::ConfigurationError), "{bad}");
        assert_eq!(collect_fees_on_chain(&r, "sepolia").err(), Some(CollectError::ConfigurationError));
    }
    let mut r = registry();
    r.merkle_contracts[1].1.factory_address = "nope".to_string();
    assert_eq!(contract_targets(&r), Err(CollectError::ConfigurationError));
}

#[test]
fn run_continues_after_a_failed_target() {
    let mut ledger = empty_ledger();
    let (mut run, action) = collect_fees_on_chain(&registry(), "sepolia").unwrap();
    assert_eq!(run.chain_name(), "sepolia");
    assert_eq!(run.targets().len(), 5);
    assert_eq!(action, Action::FetchBalance { address: [0xaa; 20], delay_secs: 0 });
    // first lockup: no fees
    let action = run.on_event(Event::Balance(RpcOutcome::Success([0; 32])), &mut ledger);
    assert_eq!(action, Action::Finish(Err(CollectError::NoFeesToCollect { address: [0xaa; 20] })));
    assert_eq!(run.current().map(|t| t.address), Some([0xaa; 20]));
    let action = run.on_event(Event::Reported, &mut ledger);
    assert_eq!(action, Action::FetchBalance { address: [0xbb; 20], delay_secs: 0 });
    // second lockup: collected
    let action = run.on_event(Event::Balance(RpcOutcome::Success(word(1))), &mut ledger);
    assert_eq!(action, Action::FetchChainId { delay_secs: 0 });
    let action = run.on_event(Event::ChainId(RpcOutcome::Success(11155111)), &mut ledger);
    assert_eq!(action, Action::Submit { to: [0xbb; 20], campaign: None });
    let action = run.on_event(received(direct_receipt(ADMIN, 10, Some(5), [5; 32]), "t1"), &mut ledger);
    assert_eq!(action, Action::Persist);
    let action = run.on_event(Event::Persisted { ok: true }, &mut ledger);
    assert_eq!(action, Action::Finish(Ok(())));
    // an event that is not the acknowledgement changes nothing
    let action = run.on_event(Event::TransactionFailed, &mut ledger);
    assert_eq!(action, Action::Finish(Err(CollectError::UnexpectedEvent)));
    let action = run.on_event(Event::Reported, &mut ledger);
    assert_eq!(action, Action::FetchBalance { address: [0x0c; 20], delay_secs: 0 });
    // flow: transport failure
    run.on_event(Event::Balance(RpcOutcome::Success(word(1))), &mut ledger);
    run.on_event(Event::ChainId(RpcOutcome::Success(11155111)), &mut ledger);
    let action = run.on_event(Event::TransactionFailed, &mut ledger);
    assert_eq!(action, Action::Finish(Err(CollectError::TransactionFailed)));
    let action = run.on_event(Event::Reported, &mut ledger);
    assert_eq!(action, Action::FetchBalance { address: [0xc1; 20], delay_secs: 0 });
    // first campaign: collected through the factory
    run.on_event(Event::Balance(RpcOutcome::Success(word(1))), &mut ledger);
    let action = run.on_event(Event::ChainId(RpcOutcome::Success(11155111)), &mut ledger);
    assert_eq!(action, Action::Submit { to: [0xfa; 20], campaign: Some([0xc1; 20]) });
    run.on_event(received(factory_receipt(ADMIN, 20), "t2"), &mut ledger);
    let action = run.on_event(Event::Persisted { ok: true }, &mut ledger);
    assert_eq!(action, Action::Finish(Ok(())));
    let action = run.on_event(Event::Reported, &mut ledger);
    assert_eq!(action, Action::FetchBalance { address: [0xc2; 20], delay_secs: 0 });
    // last campaign: nothing to collect, then the run is done
    run.on_event(Event::Balance(RpcOutcome::Success([0; 32])), &mut ledger);
    let action = run.on_event(Event::Reported, &mut ledger);
    assert_eq!(action, Action::Done);
    assert_eq!(run.current(), None);
    assert_eq!(run.on_event(Event::Reported, &mut ledger), Action::Done);
    let fees: Vec<_> = ledger.broadcasts().iter().map(|r| (r.contract_name.clone(), r.fee_collected.clone(), r.timestamp_utc.clone())).collect();
    assert_eq!(
        fees,
        vec![
            ("lockup".to_string(), FeeValue::Text("10".to_string()), "t1".to_string()),
            ("campaign".to_string(), FeeValue::Text("20".to_string()), "t2".to_string()),
        ]
    );
}

#[test]
fn chain_without_targets_is_done_at_once() {
    let empty = DeploymentsByChain { chain_id: 1, lockup: vec![], flow: vec![], merkle_contracts: vec![] };
    let (mut run, action) = collect_fees_on_chain(&empty, "mainnet").unwrap();
    assert_eq!(action, Action::Done);
    let mut ledger = empty_ledger();
    assert_eq!(run.on_event(Event::Reported, &mut ledger), Action::Done);
    assert_eq!(ContractKind::Flow.label(), "flow");
}
