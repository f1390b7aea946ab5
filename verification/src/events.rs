//! Transaction receipts and the decoder of fee-collection events.

use crate::errors::CollectError;
use crate::evm::{address_to_string, checksum_text, keccak256, keccak256_digest, word_to_decimal};
use crate::text::{be_value, bytes_eq, decimal_digits};
use vstd::prelude::*;
use vstd::string::StringSliceAdditionalSpecFns;

verus! {

/// One log of a receipt: its indexed topics and its data payload.
#[derive(Clone, Debug, PartialEq, Eq)]
pub struct Log {
    pub topics: Vec<[u8; 32]>,
    pub data: Vec<u8>,
}

/// The logs of a confirmed transaction, tagged by the transaction's type.
#[derive(Clone, Debug, PartialEq, Eq)]
pub enum ReceiptEnvelope {
    Legacy(Vec<Log>),
    Eip2930(Vec<Log>),
    Eip1559(Vec<Log>),
    Eip4844(Vec<Log>),
    Eip7702(Vec<Log>),
}

/// What the chain reports of a confirmed transaction.
#[derive(Clone, Debug, PartialEq, Eq)]
pub struct TransactionReceipt {
    pub inner: ReceiptEnvelope,
    pub block_number: Option<u64>,
    pub transaction_hash: [u8; 32],
}

impl ReceiptEnvelope {
    /// The logs, whatever the transaction's type.
    pub open spec fn spec_logs(self) -> Seq<Log> {
        match self {
            ReceiptEnvelope::Legacy(logs) => logs@,
            ReceiptEnvelope::Eip2930(logs) => logs@,
            ReceiptEnvelope::Eip1559(logs) => logs@,
            ReceiptEnvelope::Eip4844(logs) => logs@,
            ReceiptEnvelope::Eip7702(logs) => logs@,
        }
    }

    /// The logs, whatever the transaction's type.
    pub fn logs(&self) -> (logs: &Vec<Log>)
        ensures
            logs@ == self.spec_logs(),
    {
        match self {
            ReceiptEnvelope::Legacy(logs) => logs,
            ReceiptEnvelope::Eip2930(logs) => logs,
            ReceiptEnvelope::Eip1559(logs) => logs,
            ReceiptEnvelope::Eip4844(logs) => logs,
            ReceiptEnvelope::Eip7702(logs) => logs,
        }
    }
}

/// The event that a factory emits: `admin` and `merkleBase` indexed, the
/// amount in the data payload.
pub open spec fn factory_event_text() -> Seq<char> {
    "CollectFees(address,address,uint256)"@
}

/// The event that a lockup or flow contract emits: `admin` and the amount,
/// both indexed.
pub open spec fn direct_event_text() -> Seq<char> {
    "CollectFees(address,uint256)"@
}

/// The signature hash of the factory-style event.
pub open spec fn factory_event_signature() -> Seq<u8> {
    keccak256_digest(vstd::utf8::encode_utf8(factory_event_text()))
}

/// The signature hash of the direct-style event.
pub open spec fn direct_event_signature() -> Seq<u8> {
    keccak256_digest(vstd::utf8::encode_utf8(direct_event_text()))
}

/// A log of the factory-style event that carries an admin and an amount.
pub open spec fn is_factory_event(log: Log, signature: Seq<u8>) -> bool {
    log.topics@.len() >= 2 && log.topics@[0]@ == signature && log.data@.len() >= 32
}

/// A log of the direct-style event that carries an admin and an amount.
pub open spec fn is_direct_event(log: Log, signature: Seq<u8>) -> bool {
    log.topics@.len() >= 3 && log.topics@[0]@ == signature
}

/// The admin (20 bytes) and the amount (32 bytes, big-endian) that a log
/// carries, if it is one of the two events. The admin is the tail of the
/// second topic. The amount of a factory-style event is the head of the data
/// payload; that of a direct-style event is the third topic.
pub open spec fn decode_log(log: Log, factory: Seq<u8>, direct: Seq<u8>) -> Option<
    (Seq<u8>, Seq<u8>),
> {
    if is_factory_event(log, factory) {
        Some((log.topics@[1]@.skip(12), log.data@.take(32)))
    } else if is_direct_event(log, direct) {
        Some((log.topics@[1]@.skip(12), log.topics@[2]@))
    } else {
        None
    }
}

/// What the first log at or after `from` that is one of the two events
/// carries.
pub open spec fn first_collect_event(
    logs: Seq<Log>,
    from: nat,
    factory: Seq<u8>,
    direct: Seq<u8>,
) -> Option<(Seq<u8>, Seq<u8>)>
    decreases logs.len() - from,
{
    if from >= logs.len() {
        None
    } else {
        match decode_log(logs[from as int], factory, direct) {
            Some(found) => Some(found),
            None => first_collect_event(logs, from + 1, factory, direct),
        }
    }
}

/// The last twenty bytes of a topic.
fn topic_address(topic: &[u8; 32]) -> (address: [u8; 20])
    ensures
        address@ == topic@.skip(12),
{
    let mut address = [0u8; 20];
    let mut i: usize = 0;
    while i < 20
        invariant
            i <= 20,
            forall|j: int| 0 <= j < i ==> address@[j] == topic@[j + 12],
        decreases 20 - i,
    {
        address[i] = topic[i + 12];
        i += 1;
    }
    assert(address@ =~= topic@.skip(12));
    address
}

/// The first 32 bytes of a data payload.
fn data_word(data: &Vec<u8>) -> (word: [u8; 32])
    requires
        data@.len() >= 32,
    ensures
        word@ == data@.take(32),
{
    let mut word = [0u8; 32];
    let mut i: usize = 0;
    while i < 32
        invariant
            i <= 32,
            data@.len() >= 32,
            forall|j: int| 0 <= j < i ==> word@[j] == data@[j],
        decreases 32 - i,
    {
        word[i] = data[i];
        i += 1;
    }
    assert(word@ =~= data@.take(32));
    word
}

/// Decodes one log against the two signature hashes.
pub fn decode_one(log: &Log, factory: &[u8; 32], direct: &[u8; 32]) -> (found: Option<
    ([u8; 20], [u8; 32]),
>)
    ensures
        match decode_log(*log, factory@, direct@) {
            Some(carried) => found.is_some() && found.unwrap().0@ == carried.0
                && found.unwrap().1@ == carried.1,
            None => found.is_none(),
        },
{
    if log.topics.len() >= 2 && bytes_eq(log.topics[0].as_slice(), factory.as_slice())
        && log.data.len() >= 32 {
        Some((topic_address(&log.topics[1]), data_word(&log.data)))
    } else if log.topics.len() >= 3 && bytes_eq(log.topics[0].as_slice(), direct.as_slice()) {
        Some((topic_address(&log.topics[1]), log.topics[2]))
    } else {
        None
    }
}

/// Scans the logs in order and decodes the first that is one of the two
/// events, whose signature hashes are given.
pub fn decode_logs(logs: &Vec<Log>, factory: &[u8; 32], direct: &[u8; 32]) -> (found: Option<
    ([u8; 20], [u8; 32]),
>)
    ensures
        match first_collect_event(logs@, 0, factory@, direct@) {
            Some(carried) => found.is_some() && found.unwrap().0@ == carried.0
                && found.unwrap().1@ == carried.1,
            None => found.is_none(),
        },
{
    let mut i: usize = 0;
    while i < logs.len()
        invariant
            i <= logs@.len(),
            first_collect_event(logs@, 0, factory@, direct@) == first_collect_event(
                logs@,
                i as nat,
                factory@,
                direct@,
            ),
        decreases logs@.len() - i,
    {
        let found = decode_one(&logs[i], factory, direct);
        if found.is_some() {
            return found;
        }
        i += 1;
    }
    None
}

/// The signature hash of the factory-style event.
pub fn factory_signature() -> (hash: [u8; 32])
    ensures
        hash@ == factory_event_signature(),
{
    keccak256("CollectFees(address,address,uint256)".as_bytes())
}

/// The signature hash of the direct-style event.
pub fn direct_signature() -> (hash: [u8; 32])
    ensures
        hash@ == direct_event_signature(),
{
    keccak256("CollectFees(address,uint256)".as_bytes())
}

/// The admin address, in checksum notation, and the collected amount, in
/// decimal notation, of the first fee-collection event in the receipt.
pub fn handle_logs(receipt: &TransactionReceipt) -> (decoded: Result<(String, String), CollectError>)
    ensures
        match first_collect_event(
            receipt.inner.spec_logs(),
            0,
            factory_event_signature(),
            direct_event_signature(),
        ) {
            Some(carried) => decoded.is_ok() && decoded.unwrap().0@ == checksum_text(carried.0)
                && decoded.unwrap().1@ == decimal_digits(be_value(carried.1)),
            None => decoded == Err::<(String, String), CollectError>(CollectError::EventNotFound),
        },
{
    let factory = factory_signature();
    let direct = direct_signature();
    match decode_logs(receipt.inner.logs(), &factory, &direct) {
        Some((admin, amount)) => Ok((address_to_string(&admin), word_to_decimal(&amount))),
        None => Err(CollectError::EventNotFound),
    }
}

/// While no log before `at` is one of the two events, the search from the
/// start equals the search from `at`.
proof fn lemma_search_skips(logs: Seq<Log>, from: nat, at: nat, factory: Seq<u8>, direct: Seq<u8>)
    requires
        from <= at <= logs.len(),
        forall|k: int| from <= k < at ==> decode_log(#[trigger] logs[k], factory, direct).is_none(),
    ensures
        first_collect_event(logs, from, factory, direct) == first_collect_event(
            logs,
            at,
            factory,
            direct,
        ),
    decreases at - from,
{
    if from < at {
        assert(decode_log(logs[from as int], factory, direct).is_none());
        lemma_search_skips(logs, from + 1, at, factory, direct);
    }
}

/// Signature-driven decode: the first log that is one of the two events
/// decides, by its signature alone. For the factory-style signature the
/// amount is read from the data payload; for the direct-style signature it is
/// read from the third topic. In both the admin is the tail of the second
/// topic.
pub proof fn lemma_signature_driven_decode(
    logs: Seq<Log>,
    at: int,
    factory: Seq<u8>,
    direct: Seq<u8>,
)
    requires
        0 <= at < logs.len(),
        forall|k: int| 0 <= k < at ==> decode_log(#[trigger] logs[k], factory, direct).is_none(),
    ensures
        is_factory_event(logs[at], factory) ==> first_collect_event(logs, 0, factory, direct)
            == Some((logs[at].topics@[1]@.skip(12), logs[at].data@.take(32))),
        !is_factory_event(logs[at], factory) && is_direct_event(logs[at], direct)
            ==> first_collect_event(logs, 0, factory, direct) == Some(
            (logs[at].topics@[1]@.skip(12), logs[at].topics@[2]@),
        ),
{
    lemma_search_skips(logs, 0, at as nat, factory, direct);
}

/// A receipt none of whose logs is one of the two events holds no
/// fee-collection event.
pub proof fn lemma_no_event_found(logs: Seq<Log>, factory: Seq<u8>, direct: Seq<u8>)
    requires
        forall|k: int| 0 <= k < logs.len() ==> decode_log(#[trigger] logs[k], factory, direct).is_none(),
    ensures
        first_collect_event(logs, 0, factory, direct).is_none(),
{
    lemma_search_skips(logs, 0, logs.len(), factory, direct);
}

} // verus!
