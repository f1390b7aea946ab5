//! What can go wrong while collecting fees.

use crate::evm::{address_to_string, checksum_text};
use crate::text::{decimal_digits, u64_to_decimal};
use vstd::prelude::*;
use vstd::string::StringExecFns;

verus! {

/// The two read calls that are retried.
#[derive(Clone, Copy, Debug, PartialEq, Eq)]
pub enum RpcCall {
    /// The balance of the contract at `address`.
    Balance { address: [u8; 20] },
    /// The id of the chain behind the endpoint.
    ChainId,
}

/// Why a collection, or the whole run, did not succeed.
#[derive(Clone, Copy, Debug, PartialEq, Eq)]
pub enum CollectError {
    /// The endpoint answered "too many requests" on every attempt allowed.
    RateLimited { attempts: u32 },
    /// The read call failed on every attempt allowed, the last time for
    /// another reason than rate limiting.
    RpcFailed { call: RpcCall, attempts: u32 },
    /// The contract holds no balance, so nothing was submitted.
    NoFeesToCollect { address: [u8; 20] },
    /// The transaction could not be submitted or its receipt not obtained.
    TransactionFailed,
    /// The receipt holds no log of either fee-collection event.
    EventNotFound,
    /// The registry or the ledger file is malformed, or the key is missing.
    ConfigurationError,
    /// The ledger could not be written to disk.
    PersistFailed,
    /// An event arrived that does not answer the action that was asked for.
    UnexpectedEvent,
}

impl CollectError {
    /// The sentence that reports the error.
    pub open spec fn spec_message(self) -> Seq<char> {
        match self {
            CollectError::RateLimited { attempts } => "Rate limit hit after "@ + decimal_digits(
                attempts as nat,
            ) + " requests"@,
            CollectError::RpcFailed { call: RpcCall::Balance { address }, attempts } =>
                "Failed to fetch balance for "@ + checksum_text(address@) + " after "@
                    + decimal_digits(attempts as nat) + " retries"@,
            CollectError::RpcFailed { call: RpcCall::ChainId, attempts } =>
                "Failed to fetch chain id after "@ + decimal_digits(attempts as nat) + " retries"@,
            CollectError::NoFeesToCollect { address } => "No fees to collect from "@
                + checksum_text(address@),
            CollectError::TransactionFailed => "Transaction failed"@,
            CollectError::EventNotFound => "No CollectFees found"@,
            CollectError::ConfigurationError => "Invalid configuration"@,
            CollectError::PersistFailed => "Failed to save broadcasts"@,
            CollectError::UnexpectedEvent => "Unexpected event"@,
        }
    }

    /// The sentence that reports the error.
    pub fn message(&self) -> (text: String)
        ensures
            text@ == self.spec_message(),
    {
        match self {
            CollectError::RateLimited { attempts } => {
                let mut text = String::from_str("Rate limit hit after ");
                text.append(u64_to_decimal(*attempts as u64).as_str());
                text.append(" requests");
                text
            },
            CollectError::RpcFailed { call: RpcCall::Balance { address }, attempts } => {
                let mut text = String::from_str("Failed to fetch balance for ");
                text.append(address_to_string(address).as_str());
                text.append(" after ");
                text.append(u64_to_decimal(*attempts as u64).as_str());
                text.append(" retries");
                text
            },
            CollectError::RpcFailed { call: RpcCall::ChainId, attempts } => {
                let mut text = String::from_str("Failed to fetch chain id after ");
                text.append(u64_to_decimal(*attempts as u64).as_str());
                text.append(" retries");
                text
            },
            CollectError::NoFeesToCollect { address } => {
                let mut text = String::from_str("No fees to collect from ");
                text.append(address_to_string(address).as_str());
                text
            },
            CollectError::TransactionFailed => String::from_str("Transaction failed"),
            CollectError::EventNotFound => String::from_str("No CollectFees found"),
            CollectError::ConfigurationError => String::from_str("Invalid configuration"),
            CollectError::PersistFailed => String::from_str("Failed to save broadcasts"),
            CollectError::UnexpectedEvent => String::from_str("Unexpected event"),
        }
    }
}

} // verus!
