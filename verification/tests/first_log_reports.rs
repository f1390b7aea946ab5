use collect_fee::contracts::{
    collect_fees_from_campaign, collect_fees_from_flow, collect_fees_from_lockup, EventData,
};
use collect_fee::errors::{CollectError, RpcCall};
use collect_fee::events::{Log, ReceiptEnvelope, TransactionReceipt};
use collect_fee::text::{starts_with, word_to_u128};

const ADMIN: [u8; 20] = [
    0xd8, 0xda, 0x6b, 0xf2, 0x69, 0x64, 0xaf, 0x9d, 0x7e, 0xed, 0x9e, 0x03, 0xe5, 0x34, 0x15, 0xd3,
    0x7a, 0xa9, 0x60, 0x45,
];

fn topic(address: [u8; 20]) -> [u8; 32] {
    let mut t = [0u8; 32];
    t[12..].copy_from_slice(&address);
    t
}

fn word(amount: u128) -> [u8; 32] {
    let mut w = [0u8; 32];
    w[16..].copy_from_slice(&amount.to_be_bytes());
    w
}

fn receipt(logs: Vec<Log>) -> TransactionReceipt {
    TransactionReceipt { inner: ReceiptEnvelope::Eip1559(logs), block_number: Some(19), transaction_hash: [0x5a; 32] }
}

fn expected(amount: u128, contract: [u8; 20]) -> (String, String, EventData) {
    (
        format!("0x{}", "5a".repeat(32)),
        "8453".to_string(),
        EventData {
            admin: "0xd8da6bf26964af9d7eed9e03e53415d37aa96045".to_string(),
            fee_amount: amount,
            contract_address: alloy::primitives::Address::from(contract).to_string(),
            block_number: "19".to_string(),
        },
    )
}

#[test]
fn flow_and_lockup_read_the_third_topic() {
    let log = Log { topics: vec![[9; 32], topic(ADMIN), word(50)], data: word(7).to_vec() };
    let r = receipt(vec![log, Log { topics: vec![], data: vec![] }]);
    assert_eq!(collect_fees_from_flow(8453, &r, [0xf1; 20]), Ok(expected(50, [0xf1; 20])));
    assert_eq!(collect_fees_from_lockup(8453, &r, [0x10; 20]), Ok(expected(50, [0x10; 20])));
}

#[test]
fn campaign_reads_the_data_and_names_the_campaign() {
    let log = Log { topics: vec![[9; 32], topic(ADMIN), word(50)], data: word(u128::MAX).to_vec() };
    let r = receipt(vec![log]);
    assert_eq!(
        collect_fees_from_campaign(8453, &r, [0xfa; 20], [0xca; 20]),
        Ok(expected(u128::MAX, [0xca; 20]))
    );
}

#[test]
fn receipts_that_report_nothing() {
    assert_eq!(collect_fees_from_flow(1, &receipt(vec![]), [1; 20]), Err(CollectError::EventNotFound));
    let two_topics = Log { topics: vec![[9; 32], topic(ADMIN)], data: word(1).to_vec() };
    assert_eq!(
        collect_fees_from_lockup(1, &receipt(vec![two_topics.clone()]), [1; 20]),
        Err(CollectError::EventNotFound)
    );
    assert!(collect_fees_from_campaign(1, &receipt(vec![two_topics]), [2; 20], [1; 20]).is_ok());
    let short = Log { topics: vec![[9; 32], topic(ADMIN)], data: vec![0; 31] };
    assert_eq!(
        collect_fees_from_campaign(1, &receipt(vec![short]), [2; 20], [1; 20]),
        Err(CollectError::EventNotFound)
    );
    let mut big = word(0);
    big[15] = 1;
    let too_big = Log { topics: vec![[9; 32], topic(ADMIN), big], data: vec![] };
    assert_eq!(
        collect_fees_from_flow(1, &receipt(vec![too_big]), [1; 20]),
        Err(CollectError::EventNotFound)
    );
}

#[test]
fn words_as_128_bit_numbers() {
    assert_eq!(word_to_u128(&word(0)), Some(0));
    assert_eq!(word_to_u128(&word(1)), Some(1));
    assert_eq!(word_to_u128(&word(0x0102_0304_0506_0708_090a_0b0c_0d0e_0f10)), Some(0x0102_0304_0506_0708_090a_0b0c_0d0e_0f10));
    assert_eq!(word_to_u128(&word(u128::MAX)), Some(u128::MAX));
    let mut w = word(5);
    w[0] = 1;
    assert_eq!(word_to_u128(&w), None);
    w = word(0);
    w[15] = 1;
    assert_eq!(word_to_u128(&w), None);
}

#[test]
fn prefixes() {
    assert!(starts_with("Chain 1", "Chain "));
    assert!(starts_with("--all", "--"));
    assert!(starts_with("abc", ""));
    assert!(!starts_with("-", "--"));
    assert!(!starts_with("chain 1", "Chain "));
    assert!(starts_with("éa", "é"));
}

#[test]
fn error_messages() {
    assert_eq!(CollectError::RateLimited { attempts: 5 }.message(), "Rate limit hit after 5 requests");
    assert_eq!(
        CollectError::RpcFailed { call: RpcCall::Balance { address: ADMIN }, attempts: 5 }.message(),
        "Failed to fetch balance for 0xd8dA6BF26964aF9D7eEd9e03E53415D37aA96045 after 5 retries"
    );
    assert_eq!(
        CollectError::RpcFailed { call: RpcCall::ChainId, attempts: 12 }.message(),
        "Failed to fetch chain id after 12 retries"
    );
    assert_eq!(
        CollectError::NoFeesToCollect { address: ADMIN }.message(),
        "No fees to collect from 0xd8dA6BF26964aF9D7eEd9e03E53415D37aA96045"
    );
    assert_eq!(CollectError::EventNotFound.message(), "No CollectFees found");
}
