//! Collection results read from the first log of a receipt, by the kind of
//! contract that was called.

use crate::errors::CollectError;
use crate::events::{Log, TransactionReceipt};
use crate::evm::{address_to_string, checksum_text};
use crate::text::{
    be_value, decimal_digits, hex_string, prefixed_hex, u64_to_decimal, word_to_u128,
};
use vstd::prelude::*;

verus! {

/// What a fee-collection event reports.
#[derive(Clone, Debug, PartialEq, Eq)]
pub struct EventData {
    pub admin: String,
    pub fee_amount: u128,
    pub contract_address: String,
    pub block_number: String,
}

/// The mathematical value of `EventData`.
pub struct EventDataView {
    pub admin: Seq<char>,
    pub fee_amount: u128,
    pub contract_address: Seq<char>,
    pub block_number: Seq<char>,
}

impl View for EventData {
    type V = EventDataView;

    open spec fn view(&self) -> EventDataView {
        EventDataView {
            admin: self.admin@,
            fee_amount: self.fee_amount,
            contract_address: self.contract_address@,
            block_number: self.block_number@,
        }
    }
}

/// The 32 bytes of the amount in a log: the head of the data payload of a
/// factory's event, the third topic of a contract's own event. None where
/// the log does not carry an admin and an amount.
pub open spec fn amount_word(log: Log, from_data: bool) -> Option<Seq<u8>> {
    if from_data {
        if log.topics@.len() >= 2 && log.data@.len() >= 32 {
            Some(log.data@.take(32))
        } else {
            None
        }
    } else {
        if log.topics@.len() >= 3 {
            Some(log.topics@[2]@)
        } else {
            None
        }
    }
}

/// The admin's address and the amount that the first log of the receipt
/// reports, where it carries both and the amount fits in 128 bits.
pub open spec fn first_log_fee(logs: Seq<Log>, from_data: bool) -> Option<(Seq<u8>, u128)> {
    if logs.len() == 0 {
        None
    } else {
        match amount_word(logs[0], from_data) {
            Some(word) => if be_value(word) <= u128::MAX {
                Some((logs[0].topics@[1]@.skip(12), be_value(word) as u128))
            } else {
                None
            },
            None => None,
        }
    }
}

/// What a collection reports: the transaction's hash, the chain id in
/// decimal notation, and the event's data, or `EventNotFound`.
pub open spec fn collection_report(
    chain_id: u64,
    contract_address: [u8; 20],
    receipt: TransactionReceipt,
    from_data: bool,
) -> Result<(Seq<char>, Seq<char>, EventDataView), CollectError> {
    match first_log_fee(receipt.inner.spec_logs(), from_data) {
        Some(found) => Ok(
            (
                prefixed_hex(receipt.transaction_hash@),
                decimal_digits(chain_id as nat),
                EventDataView {
                    admin: prefixed_hex(found.0),
                    fee_amount: found.1,
                    contract_address: checksum_text(contract_address@),
                    block_number: decimal_digits(
                        match receipt.block_number {
                            Some(number) => number as nat,
                            None => 0,
                        },
                    ),
                },
            ),
        ),
        None => Err(CollectError::EventNotFound),
    }
}

/// The values of a report.
pub open spec fn report_view(report: Result<(String, String, EventData), CollectError>) -> Result<
    (Seq<char>, Seq<char>, EventDataView),
    CollectError,
> {
    match report {
        Ok(parts) => Ok((parts.0@, parts.1@, parts.2@)),
        Err(error) => Err(error),
    }
}

/// Reads the admin and the amount from the first log.
fn read_first_log(logs: &Vec<Log>, from_data: bool) -> (found: Option<([u8; 20], u128)>)
    ensures
        match first_log_fee(logs@, from_data) {
            Some(fee) => found.is_some() && found.unwrap().0@ == fee.0 && found.unwrap().1 == fee.1,
            None => found.is_none(),
        },
{
    if logs.len() == 0 {
        return None;
    }
    let log = &logs[0];
    let mut word = [0u8; 32];
    if from_data {
        if log.topics.len() >= 2 && log.data.len() >= 32 {
            let mut i: usize = 0;
            while i < 32
                invariant
                    i <= 32,
                    log.data@.len() >= 32,
                    forall|j: int| 0 <= j < i ==> word@[j] == log.data@[j],
                decreases 32 - i,
            {
                word[i] = log.data[i];
                i += 1;
            }
            assert(word@ =~= log.data@.take(32));
        } else {
            return None;
        }
    } else {
        if log.topics.len() >= 3 {
            word = log.topics[2];
        } else {
            return None;
        }
    }
    match word_to_u128(&word) {
        Some(amount) => {
            let topic = &log.topics[1];
            let mut admin = [0u8; 20];
            let mut i: usize = 0;
            while i < 20
                invariant
                    i <= 20,
                    forall|j: int| 0 <= j < i ==> admin@[j] == topic@[j + 12],
                decreases 20 - i,
            {
                admin[i] = topic[i + 12];
                i += 1;
            }
            assert(admin@ =~= topic@.skip(12));
            Some((admin, amount))
        },
        None => None,
    }
}

/// Reports the collection from the contract at `contract_address`.
fn collect_fees(
    chain_id: u64,
    contract_address: [u8; 20],
    receipt: &TransactionReceipt,
    from_data: bool,
) -> (report: Result<(String, String, EventData), CollectError>)
    ensures
        report_view(report) == collection_report(chain_id, contract_address, *receipt, from_data),
{
    match read_first_log(receipt.inner.logs(), from_data) {
        Some((admin, fee_amount)) => {
            let block_number: u64 = match receipt.block_number {
                Some(number) => number,
                None => 0,
            };
            Ok(
                (
                    hex_string(receipt.transaction_hash.as_slice()),
                    u64_to_decimal(chain_id),
                    EventData {
                        admin: hex_string(admin.as_slice()),
                        fee_amount,
                        contract_address: address_to_string(&contract_address),
                        block_number: u64_to_decimal(block_number),
                    },
                ),
            )
        },
        None => Err(CollectError::EventNotFound),
    }
}

/// Reports the collection from a flow contract, whose receipt on chain
/// `chain_id` is given: admin and amount are the second and third topic of
/// the first log.
pub fn collect_fees_from_flow(chain_id: u64, receipt: &TransactionReceipt, flow_address: [u8; 20]) -> (report:
    Result<(String, String, EventData), CollectError>)
    ensures
        report_view(report) == collection_report(chain_id, flow_address, *receipt, false),
{
    collect_fees(chain_id, flow_address, receipt, false)
}

/// Reports the collection from a lockup contract, whose receipt on chain
/// `chain_id` is given: admin and amount are the second and third topic of
/// the first log.
pub fn collect_fees_from_lockup(chain_id: u64, receipt: &TransactionReceipt, lockup_address: [u8; 20]) -> (report:
    Result<(String, String, EventData), CollectError>)
    ensures
        report_view(report) == collection_report(chain_id, lockup_address, *receipt, false),
{
    collect_fees(chain_id, lockup_address, receipt, false)
}

/// Reports the collection from a campaign through its factory, whose receipt
/// on chain `chain_id` is given: the admin is the second topic of the first
/// log, the amount the head of its data payload. The report names the
/// campaign, not the factory.
pub fn collect_fees_from_campaign(
    chain_id: u64,
    receipt: &TransactionReceipt,
    factory_address: [u8; 20],
    campaign_address: [u8; 20],
) -> (report: Result<(String, String, EventData), CollectError>)
    ensures
        report_view(report) == collection_report(chain_id, campaign_address, *receipt, true),
{
    collect_fees(chain_id, campaign_address, receipt, true)
}

} // verus!
