//! The fee dispatcher and the chain orchestrator: what to do next, given
//! what has happened.

use crate::errors::{CollectError, RpcCall};
use crate::events::{
    direct_event_signature, factory_event_signature, first_collect_event, handle_logs,
    TransactionReceipt,
};
use crate::evm::{
    address_to_string, address_word, checksum_text, keccak256, parse_address, parsed_address,
    selector,
};
use crate::rpc_methods::{
    fetch_balance_with_retry, get_chain_id_with_retry, retry_step, RetryStep, RpcOutcome,
    MAX_RETRIES, RETRY_DELAY_SECS,
};
use crate::states::{
    BroadcastState, BroadcastStateView, BroadcastsState, CampaignDeploymentsByFactory,
    DeploymentsByChain, FeeValue, FeeValueView,
};
use crate::text::{
    be_value, decimal_digits, hex_string, prefixed_hex, to_uppercase, u64_to_decimal,
    uppercase_text, word_is_zero,
};
use vstd::prelude::*;
use vstd::string::{StringExecFns, StringSliceAdditionalSpecFns};

verus! {

/// The kinds of contract that fees are collected from.
#[derive(Clone, Copy, Debug, PartialEq, Eq)]
pub enum ContractKind {
    Lockup,
    Flow,
    Campaign,
}

impl ContractKind {
    /// The label under which the ledger names the kind.
    pub open spec fn spec_label(self) -> Seq<char> {
        match self {
            ContractKind::Lockup => "lockup"@,
            ContractKind::Flow => "flow"@,
            ContractKind::Campaign => "campaign"@,
        }
    }

    /// The label under which the ledger names the kind.
    pub fn label(&self) -> (label: &'static str)
        ensures
            label@ == self.spec_label(),
    {
        match self {
            ContractKind::Lockup => "lockup",
            ContractKind::Flow => "flow",
            ContractKind::Campaign => "campaign",
        }
    }
}

/// One source of fees: a contract, its kind and, for a campaign, the factory
/// that owns it.
#[derive(Clone, Copy, Debug, PartialEq, Eq)]
pub struct ContractTarget {
    pub address: [u8; 20],
    pub kind: ContractKind,
    pub factory: Option<[u8; 20]>,
}

/// The mathematical value of a target.
pub struct TargetView {
    pub address: Seq<u8>,
    pub kind: ContractKind,
    pub factory: Option<Seq<u8>>,
}

impl View for ContractTarget {
    type V = TargetView;

    open spec fn view(&self) -> TargetView {
        TargetView {
            address: self.address@,
            kind: self.kind,
            factory: match self.factory {
                Some(factory) => Some(factory@),
                None => None,
            },
        }
    }
}

/// The values of a sequence of targets, in order.
pub open spec fn targets_view(targets: Seq<ContractTarget>) -> Seq<TargetView> {
    targets.map_values(|target: ContractTarget| target@)
}

/// Every text is an address.
pub open spec fn all_addresses(texts: Seq<String>) -> bool {
    forall|i: int| 0 <= i < texts.len() ==> parsed_address(#[trigger] texts[i]@).is_some()
}

/// One target of `kind` for each address, in order, with no factory.
pub open spec fn direct_targets(texts: Seq<String>, kind: ContractKind) -> Seq<TargetView> {
    Seq::new(
        texts.len(),
        |i: int|
            TargetView { address: parsed_address(texts[i]@).unwrap(), kind, factory: None },
    )
}

/// The factory's own address and those of its campaigns are addresses.
pub open spec fn factory_ok(factory: CampaignDeploymentsByFactory) -> bool {
    parsed_address(factory.factory_address@).is_some() && all_addresses(factory.campaigns@)
}

/// One campaign target for each campaign of the factory, in order, each with
/// the factory as its owner.
pub open spec fn factory_targets(factory: CampaignDeploymentsByFactory) -> Seq<TargetView> {
    Seq::new(
        factory.campaigns@.len(),
        |i: int|
            TargetView {
                address: parsed_address(factory.campaigns@[i]@).unwrap(),
                kind: ContractKind::Campaign,
                factory: Some(parsed_address(factory.factory_address@).unwrap()),
            },
    )
}

/// The campaign targets of the first `count` factories, factory by factory.
pub open spec fn campaign_targets(
    factories: Seq<(String, CampaignDeploymentsByFactory)>,
    count: nat,
) -> Seq<TargetView>
    decreases count,
{
    if count == 0 || count > factories.len() {
        Seq::empty()
    } else {
        campaign_targets(factories, (count - 1) as nat) + factory_targets(factories[count - 1].1)
    }
}

/// Every address in the chain's part of the registry is well formed.
pub open spec fn registry_ok(deployments: DeploymentsByChain) -> bool {
    &&& all_addresses(deployments.lockup@)
    &&& all_addresses(deployments.flow@)
    &&& forall|i: int|
        0 <= i < deployments.merkle_contracts@.len() ==> factory_ok(
            (#[trigger] deployments.merkle_contracts@[i]).1,
        )
}

/// The targets of a chain in the order they are processed: all lockups, all
/// flows, then the campaigns of each factory.
pub open spec fn registry_targets(deployments: DeploymentsByChain) -> Seq<TargetView> {
    direct_targets(deployments.lockup@, ContractKind::Lockup) + direct_targets(
        deployments.flow@,
        ContractKind::Flow,
    ) + campaign_targets(deployments.merkle_contracts@, deployments.merkle_contracts@.len())
}

/// Appends one target per address, or stops at the first text that is no
/// address.
fn push_targets(
    targets: &mut Vec<ContractTarget>,
    texts: &Vec<String>,
    kind: ContractKind,
    factory: Option<[u8; 20]>,
) -> (ok: bool)
    ensures
        ok == all_addresses(texts@),
        ok ==> targets_view(final(targets)@) == targets_view(old(targets)@) + Seq::new(
            texts@.len(),
            |i: int|
                TargetView {
                    address: parsed_address(texts@[i]@).unwrap(),
                    kind,
                    factory: match factory {
                        Some(f) => Some(f@),
                        None => None,
                    },
                },
        ),
{
    let ghost before = targets@;
    let mut i: usize = 0;
    while i < texts.len()
        invariant
            i <= texts@.len(),
            forall|j: int| 0 <= j < i ==> parsed_address(#[trigger] texts@[j]@).is_some(),
            targets_view(targets@) == targets_view(before) + Seq::new(
                i as nat,
                |k: int|
                    TargetView {
                        address: parsed_address(texts@[k]@).unwrap(),
                        kind,
                        factory: match factory {
                            Some(f) => Some(f@),
                            None => None,
                        },
                    },
            ),
        decreases texts@.len() - i,
    {
        let ghost so_far = targets@;
        match parse_address(texts[i].as_str()) {
            Some(address) => {
                let target = ContractTarget { address, kind, factory };
                targets.push(target);
                assert(targets_view(targets@) =~= targets_view(so_far).push(target@));
                assert(targets_view(targets@) =~= targets_view(before) + Seq::new(
                    (i + 1) as nat,
                    |k: int|
                        TargetView {
                            address: parsed_address(texts@[k]@).unwrap(),
                            kind,
                            factory: match factory {
                                Some(f) => Some(f@),
                                None => None,
                            },
                        },
                ));
            },
            None => {
                return false;
            },
        }
        i += 1;
    }
    true
}

/// The targets of a chain, in the order they are processed, or
/// `ConfigurationError` where some address of the registry is malformed.
pub fn contract_targets(deployments: &DeploymentsByChain) -> (listed: Result<
    Vec<ContractTarget>,
    CollectError,
>)
    ensures
        registry_ok(*deployments) ==> listed.is_ok() && targets_view(listed.unwrap()@)
            == registry_targets(*deployments),
        !registry_ok(*deployments) ==> listed == Err::<Vec<ContractTarget>, CollectError>(
            CollectError::ConfigurationError,
        ),
{
    let mut targets: Vec<ContractTarget> = Vec::new();
    assert(targets_view(targets@) =~= Seq::empty());
    if !push_targets(&mut targets, &deployments.lockup, ContractKind::Lockup, None) {
        return Err(CollectError::ConfigurationError);
    }
    assert(targets_view(targets@) =~= direct_targets(deployments.lockup@, ContractKind::Lockup));
    if !push_targets(&mut targets, &deployments.flow, ContractKind::Flow, None) {
        return Err(CollectError::ConfigurationError);
    }
    let ghost direct = targets_view(targets@);
    assert(direct =~= direct_targets(deployments.lockup@, ContractKind::Lockup) + direct_targets(
        deployments.flow@,
        ContractKind::Flow,
    ));
    let mut i: usize = 0;
    assert(targets_view(targets@) =~= direct + campaign_targets(deployments.merkle_contracts@, 0));
    while i < deployments.merkle_contracts.len()
        invariant
            i <= deployments.merkle_contracts@.len(),
            forall|j: int| 0 <= j < i ==> factory_ok((#[trigger] deployments.merkle_contracts@[j]).1),
            targets_view(targets@) == direct + campaign_targets(
                deployments.merkle_contracts@,
                i as nat,
            ),
            all_addresses(deployments.lockup@),
            all_addresses(deployments.flow@),
        decreases deployments.merkle_contracts@.len() - i,
    {
        let factory = &deployments.merkle_contracts[i].1;
        match parse_address(factory.factory_address.as_str()) {
            Some(owner) => {
                if !push_targets(&mut targets, &factory.campaigns, ContractKind::Campaign, Some(owner)) {
                    return Err(CollectError::ConfigurationError);
                }
                assert(targets_view(targets@) =~= direct + campaign_targets(
                    deployments.merkle_contracts@,
                    (i + 1) as nat,
                )) by {
                    assert(factory_targets(*factory) =~= Seq::new(
                        factory.campaigns@.len(),
                        |k: int|
                            TargetView {
                                address: parsed_address(factory.campaigns@[k]@).unwrap(),
                                kind: ContractKind::Campaign,
                                factory: Some(owner@),
                            },
                    ));
                }
            },
            None => {
                return Err(CollectError::ConfigurationError);
            },
        }
        i += 1;
    }
    Ok(targets)
}

/// Where the collection from one target stands: what was asked for last.
#[derive(Clone, Copy, Debug, PartialEq, Eq)]
pub enum Phase {
    /// Attempt number `attempt` of reading the target's balance.
    AwaitBalance { attempt: u32 },
    /// Attempt number `attempt` of reading the chain id.
    AwaitChainId { attempt: u32 },
    /// The call was handed over for submission on chain `chain_id`.
    AwaitReceipt { chain_id: u64 },
    /// A record was appended and the ledger is being written.
    AwaitPersist,
    /// The collection has ended and its result was handed out.
    Finished,
}

/// What happened in answer to an action.
#[derive(Clone, Debug, PartialEq, Eq)]
pub enum Event {
    /// How one attempt of reading the balance ended.
    Balance(RpcOutcome<[u8; 32]>),
    /// How one attempt of reading the chain id ended.
    ChainId(RpcOutcome<u64>),
    /// The transaction was included; the time is that of its arrival here.
    Receipt { receipt: TransactionReceipt, timestamp_utc: String },
    /// The transaction could not be submitted, or no receipt was obtained.
    TransactionFailed,
    /// The ledger was written, or writing it failed.
    Persisted { ok: bool },
    /// The result of a target was taken note of.
    Reported,
}

/// What to do next.
#[derive(Clone, Copy, Debug, PartialEq, Eq)]
pub enum Action {
    /// Wait `delay_secs` seconds, then read the balance of `address`.
    FetchBalance { address: [u8; 20], delay_secs: u64 },
    /// Wait `delay_secs` seconds, then read the chain id.
    FetchChainId { delay_secs: u64 },
    /// Call the fee withdrawal of the contract at `to`, with the campaign as
    /// its argument where there is one, and wait for the receipt.
    Submit { to: [u8; 20], campaign: Option<[u8; 20]> },
    /// Write the ledger to disk.
    Persist,
    /// The collection from the target has ended with this result.
    Finish(Result<(), CollectError>),
    /// Every target of the chain has been processed.
    Done,
}

/// The phase in which every collection starts.
pub open spec fn start_phase() -> Phase {
    Phase::AwaitBalance { attempt: 1 }
}

/// The action with which every collection starts.
pub open spec fn start_action(target: ContractTarget) -> Action {
    Action::FetchBalance { address: target.address, delay_secs: 0 }
}

/// The contract that the call goes to: the factory of a campaign, else the
/// target itself.
pub open spec fn call_recipient(target: ContractTarget) -> [u8; 20] {
    match target.factory {
        Some(factory) => factory,
        None => target.address,
    }
}

/// The argument of the call: the campaign where a factory is called, else
/// none.
pub open spec fn call_argument(target: ContractTarget) -> Option<[u8; 20]> {
    match target.factory {
        Some(_) => Some(target.address),
        None => None,
    }
}

/// What an event that does not answer the last action leads to.
pub open spec fn unexpected() -> (Phase, Action) {
    (Phase::Finished, Action::Finish(Err(CollectError::UnexpectedEvent)))
}

/// The block number of a receipt, zero where it has none.
pub open spec fn block_number_or_zero(receipt: TransactionReceipt) -> nat {
    match receipt.block_number {
        Some(number) => number as nat,
        None => 0,
    }
}

/// The record of a collection whose receipt carries `carried` (the admin's
/// address and the amount).
pub open spec fn record_of(
    chain_name: Seq<char>,
    target: ContractTarget,
    chain_id: u64,
    receipt: TransactionReceipt,
    carried: (Seq<u8>, Seq<u8>),
    timestamp_utc: Seq<char>,
) -> BroadcastStateView {
    BroadcastStateView {
        admin: checksum_text(carried.0),
        block_number: decimal_digits(block_number_or_zero(receipt)),
        chain_id: decimal_digits(chain_id as nat),
        chain_name,
        contract_address: checksum_text(target.address@),
        contract_name: target.kind.spec_label(),
        fee_collected: FeeValueView::Text(decimal_digits(be_value(carried.1))),
        timestamp_utc,
        tx_hash: prefixed_hex(receipt.transaction_hash@),
    }
}

/// What the first fee-collection event in the receipt carries.
pub open spec fn receipt_event(receipt: TransactionReceipt) -> Option<(Seq<u8>, Seq<u8>)> {
    first_collect_event(
        receipt.inner.spec_logs(),
        0,
        factory_event_signature(),
        direct_event_signature(),
    )
}

/// The next phase and action of the collection from `target`, given the
/// phase it is in and the event that arrived.
pub open spec fn collect_step(target: ContractTarget, phase: Phase, event: Event) -> (Phase, Action) {
    match (phase, event) {
        (Phase::AwaitBalance { attempt }, Event::Balance(outcome)) => match retry_step(
            RpcCall::Balance { address: target.address },
            attempt,
            outcome,
        ) {
            RetryStep::Done(balance) => if be_value(balance@) == 0 {
                (
                    Phase::Finished,
                    Action::Finish(Err(CollectError::NoFeesToCollect { address: target.address })),
                )
            } else {
                (Phase::AwaitChainId { attempt: 1 }, Action::FetchChainId { delay_secs: 0 })
            },
            RetryStep::Retry { attempt: next, delay_secs } => (
                Phase::AwaitBalance { attempt: next },
                Action::FetchBalance { address: target.address, delay_secs },
            ),
            RetryStep::GiveUp(error) => (Phase::Finished, Action::Finish(Err(error))),
        },
        (Phase::AwaitChainId { attempt }, Event::ChainId(outcome)) => match retry_step(
            RpcCall::ChainId,
            attempt,
            outcome,
        ) {
            RetryStep::Done(chain_id) => (
                Phase::AwaitReceipt { chain_id },
                Action::Submit { to: call_recipient(target), campaign: call_argument(target) },
            ),
            RetryStep::Retry { attempt: next, delay_secs } => (
                Phase::AwaitChainId { attempt: next },
                Action::FetchChainId { delay_secs },
            ),
            RetryStep::GiveUp(error) => (Phase::Finished, Action::Finish(Err(error))),
        },
        (Phase::AwaitReceipt { chain_id }, Event::Receipt { receipt, timestamp_utc }) => {
            if receipt_event(receipt).is_some() {
                (Phase::AwaitPersist, Action::Persist)
            } else {
                (Phase::Finished, Action::Finish(Err(CollectError::EventNotFound)))
            }
        },
        (Phase::AwaitReceipt { chain_id }, Event::TransactionFailed) => (
            Phase::Finished,
            Action::Finish(Err(CollectError::TransactionFailed)),
        ),
        (Phase::AwaitPersist, Event::Persisted { ok }) => (
            Phase::Finished,
            Action::Finish(
                if ok {
                    Ok(())
                } else {
                    Err(CollectError::PersistFailed)
                },
            ),
        ),
        _ => unexpected(),
    }
}

/// The record that the step appends to the ledger, if it appends one: that
/// of the receipt's first fee-collection event, when a receipt arrives that
/// was waited for.
pub open spec fn collect_record(
    chain_name: Seq<char>,
    target: ContractTarget,
    phase: Phase,
    event: Event,
) -> Option<BroadcastStateView> {
    match (phase, event) {
        (Phase::AwaitReceipt { chain_id }, Event::Receipt { receipt, timestamp_utc }) => {
            match receipt_event(receipt) {
                Some(carried) => Some(
                    record_of(chain_name, target, chain_id, receipt, carried, timestamp_utc@),
                ),
                None => None,
            }
        },
        _ => None,
    }
}

/// The name of the environment variable that holds the endpoint of a chain:
/// the chain's name in upper case, then `_RPC_URL`.
pub fn rpc_url_variable(chain_name: &str) -> (variable: String)
    ensures
        variable@ == uppercase_text(chain_name@) + "_RPC_URL"@,
{
    let mut variable = to_uppercase(chain_name);
    variable.append("_RPC_URL");
    variable
}

/// The input of the call that withdraws the fees: the selector of the
/// factory's `collectFees(address)` and the campaign's address as one word,
/// where a campaign is given; else the selector of the contract's own
/// `collectFees()`.
pub open spec fn call_input(campaign: Option<[u8; 20]>) -> Seq<u8> {
    match campaign {
        Some(address) => selector("collectFees(address)"@) + address_word(address@),
        None => selector("collectFees()"@),
    }
}

/// Builds the input of the call that withdraws the fees.
pub fn call_data(campaign: Option<[u8; 20]>) -> (input: Vec<u8>)
    ensures
        input@ == call_input(campaign),
{
    let mut input: Vec<u8> = Vec::new();
    match campaign {
        Some(address) => {
            let digest = keccak256("collectFees(address)".as_bytes());
            let mut i: usize = 0;
            while i < 4
                invariant
                    i <= 4,
                    input@ == digest@.take(i as int),
                decreases 4 - i,
            {
                input.push(digest[i]);
                assert(input@ =~= digest@.take(i + 1));
                i += 1;
            }
            let mut k: usize = 0;
            while k < 12
                invariant
                    k <= 12,
                    input@ == digest@.take(4) + Seq::new(k as nat, |j: int| 0u8),
                decreases 12 - k,
            {
                input.push(0u8);
                assert(input@ =~= digest@.take(4) + Seq::new((k + 1) as nat, |j: int| 0u8));
                k += 1;
            }
            let mut m: usize = 0;
            while m < 20
                invariant
                    m <= 20,
                    input@ == digest@.take(4) + Seq::new(12, |j: int| 0u8) + address@.take(m as int),
                decreases 20 - m,
            {
                input.push(address[m]);
                assert(input@ =~= digest@.take(4) + Seq::new(12, |j: int| 0u8) + address@.take(
                    m + 1,
                ));
                m += 1;
            }
            assert(address@.take(20) =~= address@);
            assert(input@ =~= call_input(campaign));
        },
        None => {
            let digest = keccak256("collectFees()".as_bytes());
            let mut i: usize = 0;
            while i < 4
                invariant
                    i <= 4,
                    input@ == digest@.take(i as int),
                decreases 4 - i,
            {
                input.push(digest[i]);
                assert(input@ =~= digest@.take(i + 1));
                i += 1;
            }
        },
    }
    input
}

/// Reads the clock through `chrono::Utc::now` and formats the time as
/// year-month-day, a space, hour:minute:second. Trusted, and nothing is
/// claimed of the text: it depends on the moment of the call.
#[verifier::external_body]
fn get_current_timestamp() -> String {
    chrono::Utc::now().format("%Y-%m-%d %H:%M:%S").to_string()
}

/// The event that `receipt` arrived, stamped with the current time. Whatever
/// the clock says, the event holds this receipt.
pub fn receipt_arrived(receipt: TransactionReceipt) -> (event: Event)
    ensures
        event matches Event::Receipt { receipt: held, .. } && held == receipt,
{
    Event::Receipt { receipt, timestamp_utc: get_current_timestamp() }
}

/// The phase and the action with which the collection from `target` starts:
/// the first attempt of reading its balance.
pub fn start_collection(target: &ContractTarget) -> (first: (Phase, Action))
    ensures
        first == (start_phase(), start_action(*target)),
{
    (
        Phase::AwaitBalance { attempt: 1 },
        Action::FetchBalance { address: target.address, delay_secs: 0 },
    )
}

/// Builds the record of a collection from what was decoded and what the
/// receipt and the target say.
pub fn build_record(
    chain_name: &str,
    target: &ContractTarget,
    chain_id: u64,
    receipt: &TransactionReceipt,
    admin: String,
    fee_amount: String,
    timestamp_utc: String,
) -> (record: BroadcastState)
    ensures
        record@ == (BroadcastStateView {
            admin: admin@,
            block_number: decimal_digits(block_number_or_zero(*receipt)),
            chain_id: decimal_digits(chain_id as nat),
            chain_name: chain_name@,
            contract_address: checksum_text(target.address@),
            contract_name: target.kind.spec_label(),
            fee_collected: FeeValueView::Text(fee_amount@),
            timestamp_utc: timestamp_utc@,
            tx_hash: prefixed_hex(receipt.transaction_hash@),
        }),
{
    let block_number: u64 = match receipt.block_number {
        Some(number) => number,
        None => 0,
    };
    BroadcastState {
        admin,
        block_number: u64_to_decimal(block_number),
        chain_id: u64_to_decimal(chain_id),
        chain_name: String::from_str(chain_name),
        contract_address: address_to_string(&target.address),
        contract_name: String::from_str(target.kind.label()),
        fee_collected: FeeValue::Text(fee_amount),
        timestamp_utc,
        tx_hash: hex_string(receipt.transaction_hash.as_slice()),
    }
}

/// One step of the collection from `target` on the chain `chain_name`: takes
/// the phase the collection is in and the event that arrived, and gives the
/// next phase and what to do next. A record is appended to the ledger exactly
/// when a receipt that was waited for holds a fee-collection event.
pub fn collect_fees_generic(
    chain_name: &str,
    target: &ContractTarget,
    phase: Phase,
    event: Event,
    broadcasts: &mut BroadcastsState,
) -> (next: (Phase, Action))
    ensures
        next == collect_step(*target, phase, event),
        final(broadcasts)@.file_name == old(broadcasts)@.file_name,
        final(broadcasts)@.broadcasts == match collect_record(chain_name@, *target, phase, event) {
            Some(record) => old(broadcasts)@.broadcasts.push(record),
            None => old(broadcasts)@.broadcasts,
        },
{
    match (phase, event) {
        (Phase::AwaitBalance { attempt }, Event::Balance(outcome)) => {
            match fetch_balance_with_retry(target.address, attempt, outcome) {
                RetryStep::Done(balance) => {
                    if word_is_zero(&balance) {
                        (
                            Phase::Finished,
                            Action::Finish(
                                Err(CollectError::NoFeesToCollect { address: target.address }),
                            ),
                        )
                    } else {
                        (Phase::AwaitChainId { attempt: 1 }, Action::FetchChainId { delay_secs: 0 })
                    }
                },
                RetryStep::Retry { attempt: next, delay_secs } => (
                    Phase::AwaitBalance { attempt: next },
                    Action::FetchBalance { address: target.address, delay_secs },
                ),
                RetryStep::GiveUp(error) => (Phase::Finished, Action::Finish(Err(error))),
            }
        },
        (Phase::AwaitChainId { attempt }, Event::ChainId(outcome)) => {
            match get_chain_id_with_retry(attempt, outcome) {
                RetryStep::Done(chain_id) => {
                    let action = match target.factory {
                        Some(factory) => Action::Submit {
                            to: factory,
                            campaign: Some(target.address),
                        },
                        None => Action::Submit { to: target.address, campaign: None },
                    };
                    (Phase::AwaitReceipt { chain_id }, action)
                },
                RetryStep::Retry { attempt: next, delay_secs } => (
                    Phase::AwaitChainId { attempt: next },
                    Action::FetchChainId { delay_secs },
                ),
                RetryStep::GiveUp(error) => (Phase::Finished, Action::Finish(Err(error))),
            }
        },
        (Phase::AwaitReceipt { chain_id }, Event::Receipt { receipt, timestamp_utc }) => {
            match handle_logs(&receipt) {
                Ok((admin, fee_amount)) => {
                    let record = build_record(
                        chain_name,
                        target,
                        chain_id,
                        &receipt,
                        admin,
                        fee_amount,
                        timestamp_utc,
                    );
                    broadcasts.update_and_save(record);
                    (Phase::AwaitPersist, Action::Persist)
                },
                Err(_) => (Phase::Finished, Action::Finish(Err(CollectError::EventNotFound))),
            }
        },
        (Phase::AwaitReceipt { chain_id }, Event::TransactionFailed) => (
            Phase::Finished,
            Action::Finish(Err(CollectError::TransactionFailed)),
        ),
        (Phase::AwaitPersist, Event::Persisted { ok }) => {
            if ok {
                (Phase::Finished, Action::Finish(Ok(())))
            } else {
                (Phase::Finished, Action::Finish(Err(CollectError::PersistFailed)))
            }
        },
        _ => (Phase::Finished, Action::Finish(Err(CollectError::UnexpectedEvent))),
    }
}

/// How the collection from one target went so far: the phase it is in, every
/// action given out (the first one included), and the records appended.
pub struct CollectRun {
    pub phase: Phase,
    pub actions: Seq<Action>,
    pub records: Seq<BroadcastStateView>,
}

/// The collection from `target` after the events given, in their order.
pub open spec fn collect_run(
    chain_name: Seq<char>,
    target: ContractTarget,
    events: Seq<Event>,
) -> CollectRun
    decreases events.len(),
{
    if events.len() == 0 {
        CollectRun {
            phase: start_phase(),
            actions: seq![start_action(target)],
            records: Seq::empty(),
        }
    } else {
        let before = collect_run(chain_name, target, events.drop_last());
        let step = collect_step(target, before.phase, events.last());
        CollectRun {
            phase: step.0,
            actions: before.actions.push(step.1),
            records: match collect_record(chain_name, target, before.phase, events.last()) {
                Some(record) => before.records.push(record),
                None => before.records,
            },
        }
    }
}

/// The balance that an event reports, if it reports one.
pub open spec fn reported_balance(event: Event) -> Option<[u8; 32]> {
    match event {
        Event::Balance(RpcOutcome::Success(balance)) => Some(balance),
        _ => None,
    }
}

/// Zero-balance skip: where every balance that is read of the target is
/// zero, no transaction is ever handed over for submission and no record is
/// appended, whatever else happens.
pub proof fn lemma_zero_balance_skip(
    chain_name: Seq<char>,
    target: ContractTarget,
    events: Seq<Event>,
)
    requires
        forall|i: int|
            0 <= i < events.len() && reported_balance(#[trigger] events[i]).is_some() ==> be_value(
                reported_balance(events[i]).unwrap()@,
            ) == 0,
    ensures
        collect_run(chain_name, target, events).records.len() == 0,
        forall|j: int|
            0 <= j < collect_run(chain_name, target, events).actions.len() ==> !(
            #[trigger] collect_run(chain_name, target, events).actions[j] is Submit),
        collect_run(chain_name, target, events).phase is AwaitBalance || collect_run(
            chain_name,
            target,
            events,
        ).phase is Finished,
    decreases events.len(),
{
    if events.len() > 0 {
        let front = events.drop_last();
        assert forall|i: int|
            0 <= i < front.len() && reported_balance(#[trigger] front[i]).is_some() implies be_value(
            reported_balance(front[i]).unwrap()@,
        ) == 0 by {
            assert(front[i] == events[i]);
        }
        lemma_zero_balance_skip(chain_name, target, front);
        let last = events.last();
        assert(last == events[events.len() - 1]);
        assert(reported_balance(last).is_some() ==> be_value(reported_balance(last).unwrap()@) == 0);
    }
}

/// Campaign routing: every call that is handed over for submission goes to
/// the target's factory, with the target as its argument, where the target
/// has a factory; it goes to the target itself only where it has none.
pub proof fn lemma_campaign_routing(
    chain_name: Seq<char>,
    target: ContractTarget,
    events: Seq<Event>,
    j: int,
)
    requires
        0 <= j < collect_run(chain_name, target, events).actions.len(),
        collect_run(chain_name, target, events).actions[j] is Submit,
    ensures
        collect_run(chain_name, target, events).actions[j] == (Action::Submit {
            to: call_recipient(target),
            campaign: call_argument(target),
        }),
        target.factory matches Some(factory) ==> collect_run(chain_name, target, events).actions[j]
            == (Action::Submit { to: factory, campaign: Some(target.address) }),
    decreases events.len(),
{
    if events.len() > 0 {
        let before = collect_run(chain_name, target, events.drop_last());
        if j < before.actions.len() {
            lemma_campaign_routing(chain_name, target, events.drop_last(), j);
        }
    }
}

/// Append ordering: the records of a collection only grow at the end. What
/// was appended after the first `count` events is a prefix of what is there
/// after all of them.
pub proof fn lemma_records_keep_order(
    chain_name: Seq<char>,
    target: ContractTarget,
    events: Seq<Event>,
    count: int,
)
    requires
        0 <= count <= events.len(),
    ensures
        collect_run(chain_name, target, events.take(count)).records.is_prefix_of(
            collect_run(chain_name, target, events).records,
        ),
    decreases events.len() - count,
{
    if count == events.len() {
        assert(events.take(count) =~= events);
    } else {
        let front = events.drop_last();
        assert(front.take(count) =~= events.take(count));
        lemma_records_keep_order(chain_name, target, front, count);
    }
}

/// One collection appends one record at most, and none before its receipt
/// was decoded.
pub proof fn lemma_one_record_at_most(
    chain_name: Seq<char>,
    target: ContractTarget,
    events: Seq<Event>,
)
    ensures
        collect_run(chain_name, target, events).records.len() <= 1,
        collect_run(chain_name, target, events).phase is AwaitPersist ==> collect_run(
            chain_name,
            target,
            events,
        ).records.len() == 1,
        !(collect_run(chain_name, target, events).phase is AwaitPersist) && !(collect_run(
            chain_name,
            target,
            events,
        ).phase is Finished) ==> collect_run(chain_name, target, events).records.len() == 0,
    decreases events.len(),
{
    if events.len() > 0 {
        lemma_one_record_at_most(chain_name, target, events.drop_last());
    }
}

/// A run gives out one action to start with and one for every event.
pub proof fn lemma_one_action_per_event(
    chain_name: Seq<char>,
    target: ContractTarget,
    events: Seq<Event>,
)
    ensures
        collect_run(chain_name, target, events).actions.len() == events.len() + 1,
    decreases events.len(),
{
    if events.len() > 0 {
        lemma_one_action_per_event(chain_name, target, events.drop_last());
    }
}

/// Once a collection has ended, whatever arrives later changes nothing: the
/// collection stays ended, no record is appended, and nothing more is asked
/// of the endpoint, for every later action only says that the event was not
/// expected.
pub proof fn lemma_nothing_after_the_end(
    chain_name: Seq<char>,
    target: ContractTarget,
    events: Seq<Event>,
    count: int,
)
    requires
        0 <= count <= events.len(),
        collect_run(chain_name, target, events.take(count)).phase is Finished,
    ensures
        collect_run(chain_name, target, events).phase is Finished,
        collect_run(chain_name, target, events).records == collect_run(
            chain_name,
            target,
            events.take(count),
        ).records,
        forall|j: int|
            count < j <= events.len() ==> collect_run(chain_name, target, events).actions[j]
                == Action::Finish(Err(CollectError::UnexpectedEvent)),
    decreases events.len() - count,
{
    lemma_one_action_per_event(chain_name, target, events);
    if count == events.len() {
        assert(events.take(count) =~= events);
    } else {
        let front = events.drop_last();
        assert(front.take(count) =~= events.take(count));
        lemma_nothing_after_the_end(chain_name, target, front, count);
        lemma_one_action_per_event(chain_name, target, front);
        let before = collect_run(chain_name, target, front);
        let after = collect_run(chain_name, target, events);
        assert forall|j: int| count < j <= events.len() implies after.actions[j] == Action::Finish(
            Err(CollectError::UnexpectedEvent),
        ) by {
            if j < events.len() {
                assert(after.actions[j] == before.actions[j]);
            }
        }
    }
}

/// The events of an endpoint that answers every reading of the balance with
/// a rate-limit response.
pub open spec fn always_rate_limited(events: Seq<Event>) -> bool {
    forall|i: int|
        0 <= i < events.len() ==> (#[trigger] events[i] matches Event::Balance(outcome)
            && outcome.is_rate_limited())
}

/// The retry ceiling in a collection: against an endpoint that answers every
/// reading of the balance with a rate-limit response, the balance is asked
/// for exactly `MAX_RETRIES` times, each time but the first after the fixed
/// delay; then the collection ends with `RateLimited`, and nothing is asked
/// for after that.
pub proof fn lemma_rate_limited_collection(
    chain_name: Seq<char>,
    target: ContractTarget,
    events: Seq<Event>,
)
    requires
        always_rate_limited(events),
        events.len() >= MAX_RETRIES,
    ensures
        collect_run(chain_name, target, events).actions[0] == start_action(target),
        forall|j: int|
            1 <= j < MAX_RETRIES ==> collect_run(chain_name, target, events).actions[j]
                == (Action::FetchBalance { address: target.address, delay_secs: RETRY_DELAY_SECS }),
        collect_run(chain_name, target, events).actions[MAX_RETRIES as int] == Action::Finish(
            Err(CollectError::RateLimited { attempts: MAX_RETRIES }),
        ),
        forall|j: int|
            MAX_RETRIES < j <= events.len() ==> collect_run(chain_name, target, events).actions[j]
                == Action::Finish(Err(CollectError::UnexpectedEvent)),
        collect_run(chain_name, target, events).phase is Finished,
        collect_run(chain_name, target, events).records.len() == 0,
{
    lemma_nothing_after_the_end_of_limit(chain_name, target, events);
    let all = collect_run(chain_name, target, events);
    assert forall|j: int| 0 <= j <= MAX_RETRIES implies all.actions[j] == collect_run(
        chain_name,
        target,
        events.take(j),
    ).actions.last() by {
        lemma_actions_keep_order(chain_name, target, events, j);
        lemma_one_action_per_event(chain_name, target, events.take(j));
        let head = collect_run(chain_name, target, events.take(j));
        assert(head.actions.is_prefix_of(all.actions));
        assert(head.actions.last() == head.actions[j]);
    }
    assert forall|j: int| 1 <= j < MAX_RETRIES implies all.actions[j] == (Action::FetchBalance {
        address: target.address,
        delay_secs: RETRY_DELAY_SECS,
    }) by {
        lemma_rate_limited_prefix(chain_name, target, events, j);
    }
    lemma_rate_limited_prefix(chain_name, target, events, 0);
    lemma_rate_limited_prefix(chain_name, target, events, MAX_RETRIES as int);
}

/// After as many rate-limit responses as attempts are allowed, the
/// collection has ended and stays so.
proof fn lemma_nothing_after_the_end_of_limit(
    chain_name: Seq<char>,
    target: ContractTarget,
    events: Seq<Event>,
)
    requires
        always_rate_limited(events),
        events.len() >= MAX_RETRIES,
    ensures
        collect_run(chain_name, target, events).phase is Finished,
        collect_run(chain_name, target, events).records.len() == 0,
        forall|j: int|
            MAX_RETRIES < j <= events.len() ==> collect_run(chain_name, target, events).actions[j]
                == Action::Finish(Err(CollectError::UnexpectedEvent)),
{
    lemma_rate_limited_prefix(chain_name, target, events, MAX_RETRIES as int);
    lemma_nothing_after_the_end(chain_name, target, events, MAX_RETRIES as int);
}

/// After `count` rate-limit responses, `count` below the limit, the next
/// attempt is awaited; after as many as the limit, the collection has ended
/// with `RateLimited`.
proof fn lemma_rate_limited_prefix(
    chain_name: Seq<char>,
    target: ContractTarget,
    events: Seq<Event>,
    count: int,
)
    requires
        always_rate_limited(events),
        0 <= count <= events.len(),
        count <= MAX_RETRIES,
    ensures
        collect_run(chain_name, target, events.take(count)).records.len() == 0,
        count < MAX_RETRIES ==> collect_run(chain_name, target, events.take(count)).phase == (
        Phase::AwaitBalance { attempt: (count + 1) as u32 }),
        0 < count < MAX_RETRIES ==> collect_run(
            chain_name,
            target,
            events.take(count),
        ).actions.last() == (Action::FetchBalance {
            address: target.address,
            delay_secs: RETRY_DELAY_SECS,
        }),
        count == 0 ==> collect_run(chain_name, target, events.take(count)).actions.last()
            == start_action(target),
        count == MAX_RETRIES ==> collect_run(chain_name, target, events.take(count)).phase
            is Finished && collect_run(chain_name, target, events.take(count)).actions.last()
            == Action::Finish(Err(CollectError::RateLimited { attempts: MAX_RETRIES })),
    decreases count,
{
    if count > 0 {
        lemma_rate_limited_prefix(chain_name, target, events, count - 1);
        let now = events.take(count);
        assert(now.drop_last() =~= events.take(count - 1));
        assert(now.last() == events[count - 1]);
    }
}

/// The actions of a run only grow at the end: those given out after the
/// first `count` events are a prefix of those given out after all of them.
pub proof fn lemma_actions_keep_order(
    chain_name: Seq<char>,
    target: ContractTarget,
    events: Seq<Event>,
    count: int,
)
    requires
        0 <= count <= events.len(),
    ensures
        collect_run(chain_name, target, events.take(count)).actions.is_prefix_of(
            collect_run(chain_name, target, events).actions,
        ),
    decreases events.len() - count,
{
    if count == events.len() {
        assert(events.take(count) =~= events);
    } else {
        let front = events.drop_last();
        assert(front.take(count) =~= events.take(count));
        lemma_actions_keep_order(chain_name, target, front, count);
    }
}

/// The state of a run over the targets of one chain.
pub struct ChainRunView {
    pub chain_name: Seq<char>,
    pub targets: Seq<ContractTarget>,
    pub index: nat,
    pub phase: Phase,
}

/// A run over the targets of one chain, one after the other.
#[derive(Debug)]
pub struct ChainRun {
    chain_name: String,
    targets: Vec<ContractTarget>,
    index: usize,
    phase: Phase,
}

impl View for ChainRun {
    type V = ChainRunView;

    closed spec fn view(&self) -> ChainRunView {
        ChainRunView {
            chain_name: self.chain_name@,
            targets: self.targets@,
            index: self.index as nat,
            phase: self.phase,
        }
    }
}

/// How the target at `index` is started, or that none is left.
pub open spec fn chain_start(targets: Seq<ContractTarget>, index: nat) -> (Phase, Action) {
    if index < targets.len() {
        (start_phase(), start_action(targets[index as int]))
    } else {
        (Phase::Finished, Action::Done)
    }
}

/// The next state of the run and what to do next. While a target is being
/// collected from, the event goes to its collection. Once its result was
/// handed out, whether success or failure, `Reported` starts the next target;
/// after the last one the run is done.
pub open spec fn chain_step(run: ChainRunView, event: Event) -> (ChainRunView, Action) {
    if run.index >= run.targets.len() {
        (run, Action::Done)
    } else if run.phase is Finished {
        match event {
            Event::Reported => {
                let start = chain_start(run.targets, run.index + 1);
                (ChainRunView { index: run.index + 1, phase: start.0, ..run }, start.1)
            },
            _ => (run, Action::Finish(Err(CollectError::UnexpectedEvent))),
        }
    } else {
        let step = collect_step(run.targets[run.index as int], run.phase, event);
        (ChainRunView { phase: step.0, ..run }, step.1)
    }
}

/// The record that a step of the run appends, if it appends one.
pub open spec fn chain_record(run: ChainRunView, event: Event) -> Option<BroadcastStateView> {
    if run.index < run.targets.len() && !(run.phase is Finished) {
        collect_record(run.chain_name, run.targets[run.index as int], run.phase, event)
    } else {
        None
    }
}

/// Begins the run over the targets of the chain `chain_name`: lists them in
/// the registry's order and gives the first action. A malformed address
/// anywhere in the chain's part of the registry fails before any target is
/// processed.
pub fn collect_fees_on_chain(deployments_by_chain: &DeploymentsByChain, chain_name: &str) -> (begun:
    Result<(ChainRun, Action), CollectError>)
    ensures
        registry_ok(*deployments_by_chain) ==> begun.is_ok() && begun.unwrap().0@.chain_name
            == chain_name@ && targets_view(begun.unwrap().0@.targets) == registry_targets(
            *deployments_by_chain,
        ) && begun.unwrap().0@.index == 0 && (begun.unwrap().0@.phase, begun.unwrap().1)
            == chain_start(begun.unwrap().0@.targets, 0),
        !registry_ok(*deployments_by_chain) ==> begun is Err && begun->Err_0
            == CollectError::ConfigurationError,
{
    match contract_targets(deployments_by_chain) {
        Ok(targets) => {
            let (phase, action) = if targets.len() > 0 {
                start_collection(&targets[0])
            } else {
                (Phase::Finished, Action::Done)
            };
            Ok((ChainRun { chain_name: String::from_str(chain_name), targets, index: 0, phase }, action))
        },
        Err(error) => Err(error),
    }
}

impl ChainRun {
    /// Takes the event that answers the last action and gives the next
    /// action. A record is appended to the ledger exactly when the collection
    /// under way appends one.
    pub fn on_event(&mut self, event: Event, broadcasts: &mut BroadcastsState) -> (action: Action)
        ensures
            (final(self)@, action) == chain_step(old(self)@, event),
            final(broadcasts)@.file_name == old(broadcasts)@.file_name,
            final(broadcasts)@.broadcasts == match chain_record(old(self)@, event) {
                Some(record) => old(broadcasts)@.broadcasts.push(record),
                None => old(broadcasts)@.broadcasts,
            },
    {
        if self.index >= self.targets.len() {
            return Action::Done;
        }
        match self.phase {
            Phase::Finished => match event {
                Event::Reported => {
                    self.index = self.index + 1;
                    if self.index < self.targets.len() {
                        let (phase, action) = start_collection(&self.targets[self.index]);
                        self.phase = phase;
                        action
                    } else {
                        Action::Done
                    }
                },
                _ => Action::Finish(Err(CollectError::UnexpectedEvent)),
            },
            _ => {
                let target = self.targets[self.index];
                let (phase, action) = collect_fees_generic(
                    self.chain_name.as_str(),
                    &target,
                    self.phase,
                    event,
                    broadcasts,
                );
                self.phase = phase;
                action
            },
        }
    }

    /// The chain's name.
    pub fn chain_name(&self) -> (name: &String)
        ensures
            name@ == self@.chain_name,
    {
        &self.chain_name
    }

    /// The targets of the run, in the order they are processed.
    pub fn targets(&self) -> (targets: &Vec<ContractTarget>)
        ensures
            targets@ == self@.targets,
    {
        &self.targets
    }

    /// The target that is being collected from, if any is left.
    pub fn current(&self) -> (target: Option<ContractTarget>)
        ensures
            target == if self@.index < self@.targets.len() {
                Some(self@.targets[self@.index as int])
            } else {
                None
            },
    {
        if self.index < self.targets.len() {
            Some(self.targets[self.index])
        } else {
            None
        }
    }
}

/// A failure of one target never ends the run: once a result was handed out
/// for a target that is not the last, `Reported` starts the next target with
/// the first attempt of reading its balance, and the targets stay as they
/// are.
pub proof fn lemma_run_goes_on(run: ChainRunView, event: Event)
    requires
        run.index + 1 < run.targets.len(),
        !(run.phase is Finished),
        collect_step(run.targets[run.index as int], run.phase, event).1 is Finish,
    ensures
        chain_step(chain_step(run, event).0, Event::Reported).0 == (ChainRunView {
            index: run.index + 1,
            phase: start_phase(),
            ..run
        }),
        chain_step(chain_step(run, event).0, Event::Reported).1 == start_action(
            run.targets[run.index as int + 1],
        ),
{
}

} // verus!
