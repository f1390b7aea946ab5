use collect_fee::errors::CollectError;
use collect_fee::events::{
    decode_logs, decode_one, direct_signature, factory_signature, handle_logs, Log,
    ReceiptEnvelope, TransactionReceipt,
};

const ADMIN: [u8; 20] = [
    0xd8, 0xda, 0x6b, 0xf2, 0x69, 0x64, 0xaf, 0x9d, 0x7e, 0xed, 0x9e, 0x03, 0xe5, 0x34, 0x15, 0xd3,
    0x7a, 0xa9, 0x60, 0x45,
];
const ADMIN_TEXT: &str = "0xd8dA6BF26964aF9D7eEd9e03E53415D37aA96045";

fn address_topic(address: [u8; 20]) -> [u8; 32] {
    let mut topic = [0u8; 32];
    topic[12..].copy_from_slice(&address);
    topic
}

fn amount_word(amount: u64) -> [u8; 32] {
    let mut word = [0u8; 32];
    word[24..].copy_from_slice(&amount.to_be_bytes());
    word
}

fn direct_log(admin: [u8; 20], amount: u64) -> Log {
    Log { topics: vec![direct_signature(), address_topic(admin), amount_word(amount)], data: vec![] }
}

fn factory_log(admin: [u8; 20], amount: u64) -> Log {
    Log {
        topics: vec![factory_signature(), address_topic(admin), address_topic([0x11; 20])],
        data: amount_word(amount).to_vec(),
    }
}

fn receipt(inner: ReceiptEnvelope) -> TransactionReceipt {
    TransactionReceipt { inner, block_number: Some(7), transaction_hash: [0xab; 32] }
}

#[test]
fn signatures_are_keccak_of_the_event_declarations() {
    let factory = alloy::primitives::keccak256("CollectFees(address,address,uint256)".as_bytes());
    let direct = alloy::primitives::keccak256("CollectFees(address,uint256)".as_bytes());
    assert_eq!(factory_signature(), factory.0);
    assert_eq!(direct_signature(), direct.0);
    assert_ne!(factory_signature(), direct_signature());
    assert_ne!(&factory_signature()[..], "CollectFees(address,address,uint256)".as_bytes());
}

#[test]
fn direct_event_reads_amount_from_third_topic() {
    let r = receipt(ReceiptEnvelope::Eip1559(vec![direct_log(ADMIN, 50)]));
    assert_eq!(handle_logs(&r), Ok((ADMIN_TEXT.to_string(), "50".to_string())));
}

#[test]
fn factory_event_reads_amount_from_data() {
    let mut log = factory_log(ADMIN, 1234567890123);
    log.data.extend_from_slice(&[0xff; 8]);
    let r = receipt(ReceiptEnvelope::Legacy(vec![log]));
    assert_eq!(handle_logs(&r), Ok((ADMIN_TEXT.to_string(), "1234567890123".to_string())));
}

#[test]
fn factory_event_ignores_its_third_topic_as_amount() {
    let log = Log {
        topics: vec![factory_signature(), address_topic(ADMIN), amount_word(999)],
        data: amount_word(5).to_vec(),
    };
    let found = decode_one(&log, &factory_signature(), &direct_signature());
    assert_eq!(found, Some((ADMIN, amount_word(5))));
}

#[test]
fn amount_uses_all_32_bytes() {
    let mut word = [0u8; 32];
    word[0] = 1;
    let log = Log { topics: vec![direct_signature(), address_topic(ADMIN), word], data: vec![] };
    let r = receipt(ReceiptEnvelope::Eip1559(vec![log]));
    let expected = "452312848583266388373324160190187140051835877600158453279131187530910662656";
    assert_eq!(handle_logs(&r), Ok((ADMIN_TEXT.to_string(), expected.to_string())));
}

#[test]
fn zero_amount_is_written_as_zero() {
    let r = receipt(ReceiptEnvelope::Eip1559(vec![direct_log(ADMIN, 0)]));
    assert_eq!(handle_logs(&r), Ok((ADMIN_TEXT.to_string(), "0".to_string())));
}

#[test]
fn receipt_without_event_is_event_not_found() {
    let other = Log { topics: vec![[0x42; 32], address_topic(ADMIN), amount_word(1)], data: vec![1, 2, 3] };
    let r = receipt(ReceiptEnvelope::Eip1559(vec![other]));
    assert_eq!(handle_logs(&r), Err(CollectError::EventNotFound));
    let empty = receipt(ReceiptEnvelope::Eip1559(vec![]));
    assert_eq!(handle_logs(&empty), Err(CollectError::EventNotFound));
}

#[test]
fn first_matching_log_wins() {
    let other = Log { topics: vec![[0x42; 32]], data: vec![] };
    let logs = vec![other, factory_log(ADMIN, 10), direct_log([0x22; 20], 20)];
    let found = decode_logs(&logs, &factory_signature(), &direct_signature());
    assert_eq!(found, Some((ADMIN, amount_word(10))));
    let logs = vec![direct_log([0x22; 20], 20), factory_log(ADMIN, 10)];
    let found = decode_logs(&logs, &factory_signature(), &direct_signature());
    assert_eq!(found, Some(([0x22; 20], amount_word(20))));
}

#[test]
fn logs_that_lack_fields_are_passed_over() {
    let no_topics = Log { topics: vec![], data: vec![] };
    let short_factory = Log {
        topics: vec![factory_signature(), address_topic(ADMIN)],
        data: vec![0; 31],
    };
    let short_direct = Log { topics: vec![direct_signature(), address_topic(ADMIN)], data: vec![] };
    let logs = vec![no_topics.clone(), short_factory.clone(), short_direct.clone()];
    assert_eq!(decode_logs(&logs, &factory_signature(), &direct_signature()), None);
    let logs = vec![no_topics, short_factory, short_direct, direct_log(ADMIN, 3)];
    assert_eq!(
        decode_logs(&logs, &factory_signature(), &direct_signature()),
        Some((ADMIN, amount_word(3)))
    );
}

#[test]
fn every_envelope_gives_the_same_logs() {
    let logs = vec![direct_log(ADMIN, 50)];
    let expected = Ok((ADMIN_TEXT.to_string(), "50".to_string()));
    assert_eq!(handle_logs(&receipt(ReceiptEnvelope::Legacy(logs.clone()))), expected);
    assert_eq!(handle_logs(&receipt(ReceiptEnvelope::Eip2930(logs.clone()))), expected);
    assert_eq!(handle_logs(&receipt(ReceiptEnvelope::Eip1559(logs.clone()))), expected);
    assert_eq!(handle_logs(&receipt(ReceiptEnvelope::Eip4844(logs.clone()))), expected);
    assert_eq!(handle_logs(&receipt(ReceiptEnvelope::Eip7702(logs.clone()))), expected);
    assert_eq!(ReceiptEnvelope::Eip4844(logs.clone()).logs(), &logs);
}

#[test]
fn decoder_takes_signatures_as_given() {
    let log = Log { topics: vec![[1; 32], address_topic(ADMIN), amount_word(9)], data: amount_word(8).to_vec() };
    assert_eq!(decode_one(&log, &[1; 32], &[2; 32]), Some((ADMIN, amount_word(8))));
    assert_eq!(decode_one(&log, &[2; 32], &[1; 32]), Some((ADMIN, amount_word(9))));
    assert_eq!(decode_one(&log, &[2; 32], &[3; 32]), None);
}
