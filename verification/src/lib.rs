//! Fee collection for deployed contracts: decisions, decoding and the ledger.

pub mod broadcast;
pub mod chain_data;
pub mod chain_ids;
pub mod chain_map;
pub mod collect_fees;
pub mod contracts;
pub mod deployer;
pub mod errors;
pub mod events;
pub mod evm;
pub mod rpc_methods;
pub mod states;
pub mod text;
pub mod verify;
