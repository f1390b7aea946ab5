//! Chain ids mapped to display names and to explorer pages of contracts.

use crate::text::str_eq;
use vstd::prelude::*;
use vstd::string::StringExecFns;

verus! {

/// The number of rows in the map of chains.
pub const MAPPED_CHAINS: usize = 40;

/// Row `i` of the map of chains: id, display name, and the explorer URL that
/// a contract's address is appended to.
pub open spec fn mapped_row(i: int) -> (Seq<char>, Seq<char>, Seq<char>) {
    if i == 0 {
        ("1"@, "Ethereum Mainnet"@, "https://etherscan.io/address/"@)
    } else if i == 1 {
        ("2741"@, "Abstract"@, "https://wwstage.abscan.org/address/"@)
    } else if i == 2 {
        ("42161"@, "Arbitrum One"@, "https://arbiscan.io/address/"@)
    } else if i == 3 {
        ("43114"@, "Avalanche"@, "https://snowtrace.io/address/"@)
    } else if i == 4 {
        ("8453"@, "Base"@, "https://basescan.org/address/"@)
    } else if i == 5 {
        ("80094"@, "Berachain"@, "https://berascan.com/address/"@)
    } else if i == 6 {
        ("81457"@, "Blast"@, "https://blastscan.io/address/"@)
    } else if i == 7 {
        ("56"@, "BNB Smart Chain"@, "https://bscscan.com/address/"@)
    } else if i == 8 {
        ("88888"@, "Chiliz"@, "https://chiliscan.com/address/"@)
    } else if i == 9 {
        ("1116"@, "Core Dao"@, "https://scan.coredao.org/address/"@)
    } else if i == 10 {
        ("478"@, "Form"@, "https://explorer.form.network/address/"@)
    } else if i == 11 {
        ("100"@, "Gnosis"@, "https://gnosisscan.io/address/"@)
    } else if i == 12 {
        ("4689"@, "IoTex"@, "https://iotexscan.io/address/"@)
    } else if i == 13 {
        ("1890"@, "Lightlink"@, "https://phoenix.lightlink.io/address/"@)
    } else if i == 14 {
        ("59144"@, "Linea"@, "https://lineascan.build/address/"@)
    } else if i == 15 {
        ("333000333"@, "Meld"@, "https://meldscan.io/address/"@)
    } else if i == 16 {
        ("34443"@, "Mode"@, "https://explorer.mode.network/address/"@)
    } else if i == 17 {
        ("2818"@, "Morph"@, "https://explorer.morphl2.io/address/"@)
    } else if i == 18 {
        ("10"@, "Optimism"@, "https://optimistic.etherscan.io/address/"@)
    } else if i == 19 {
        ("137"@, "Polygon"@, "https://polygonscan.com/address/"@)
    } else if i == 20 {
        ("534352"@, "Scroll"@, "https://scrollscan.com/address/"@)
    } else if i == 21 {
        ("5330"@, "Superseed"@, "https://explorer.superseed.xyz/address/"@)
    } else if i == 22 {
        ("167000"@, "Taiko Mainnet"@, "https://taikoscan.io/address/"@)
    } else if i == 23 {
        ("5845"@, "Tangle"@, "https://explorer.tangle.tools/address/"@)
    } else if i == 24 {
        ("50"@, "XDC"@, "https://xdcscan.com/address/"@)
    } else if i == 25 {
        ("324"@, "zkSync Era"@, "https://era.zksync.network/address/"@)
    } else if i == 26 {
        ("11155111"@, "Sepolia"@, "https://sepolia.etherscan.io/address/"@)
    } else if i == 27 {
        ("421614"@, "Arbitrum Sepolia"@, "https://sepolia.arbiscan.io/address/"@)
    } else if i == 28 {
        ("84532"@, "Base Sepolia"@, "https://sepolia.basescan.org/address/"@)
    } else if i == 29 {
        ("80084"@, "Berachain Bartio"@, "https://sepolia.berachain.io/address/"@)
    } else if i == 30 {
        ("168587773"@, "Blast Sepolia"@, "https://sepolia.blastscan.io/address/"@)
    } else if i == 31 {
        ("59141"@, "Linea Sepolia"@, "https://sepolia.lineascan.build/address/"@)
    } else if i == 32 {
        ("919"@, "Mode Sepolia"@, "https://sepolia.explorer.mode.network/address/"@)
    } else if i == 33 {
        ("10143"@, "Monad Testnet"@, "https://testnet.monadexplorer.com/address/"@)
    } else if i == 34 {
        ("2810"@, "Morph Holesky"@, "https://sepolia.morphl2.io/address/"@)
    } else if i == 35 {
        ("11155420"@, "Optimism Sepolia"@, "https://sepolia.optimistic.etherscan.io/address/"@)
    } else if i == 36 {
        ("974399131"@, "SKALE Testnet"@, "https://sepolia.skale.io/address/"@)
    } else if i == 37 {
        ("53302"@, "Superseed Sepolia"@, "https://sepolia.superseed.xyz/address/"@)
    } else if i == 38 {
        ("167009"@, "Taiko Hekla"@, "https://sepolia.taikoscan.io/address/"@)
    } else {
        ("300"@, "zkSync Sepolia"@, "https://sepolia.zksync.network/address/"@)
    }
}

/// Row `i` of the map of chains.
fn row(i: usize) -> (r: (&'static str, &'static str, &'static str))
    requires
        i < MAPPED_CHAINS,
    ensures
        r.0@ == mapped_row(i as int).0,
        r.1@ == mapped_row(i as int).1,
        r.2@ == mapped_row(i as int).2,
{
    if i == 0 {
        ("1", "Ethereum Mainnet", "https://etherscan.io/address/")
    } else if i == 1 {
        ("2741", "Abstract", "https://wwstage.abscan.org/address/")
    } else if i == 2 {
        ("42161", "Arbitrum One", "https://arbiscan.io/address/")
    } else if i == 3 {
        ("43114", "Avalanche", "https://snowtrace.io/address/")
    } else if i == 4 {
        ("8453", "Base", "https://basescan.org/address/")
    } else if i == 5 {
        ("80094", "Berachain", "https://berascan.com/address/")
    } else if i == 6 {
        ("81457", "Blast", "https://blastscan.io/address/")
    } else if i == 7 {
        ("56", "BNB Smart Chain", "https://bscscan.com/address/")
    } else if i == 8 {
        ("88888", "Chiliz", "https://chiliscan.com/address/")
    } else if i == 9 {
        ("1116", "Core Dao", "https://scan.coredao.org/address/")
    } else if i == 10 {
        ("478", "Form", "https://explorer.form.network/address/")
    } else if i == 11 {
        ("100", "Gnosis", "https://gnosisscan.io/address/")
    } else if i == 12 {
        ("4689", "IoTex", "https://iotexscan.io/address/")
    } else if i == 13 {
        ("1890", "Lightlink", "https://phoenix.lightlink.io/address/")
    } else if i == 14 {
        ("59144", "Linea", "https://lineascan.build/address/")
    } else if i == 15 {
        ("333000333", "Meld", "https://meldscan.io/address/")
    } else if i == 16 {
        ("34443", "Mode", "https://explorer.mode.network/address/")
    } else if i == 17 {
        ("2818", "Morph", "https://explorer.morphl2.io/address/")
    } else if i == 18 {
        ("10", "Optimism", "https://optimistic.etherscan.io/address/")
    } else if i == 19 {
        ("137", "Polygon", "https://polygonscan.com/address/")
    } else if i == 20 {
        ("534352", "Scroll", "https://scrollscan.com/address/")
    } else if i == 21 {
        ("5330", "Superseed", "https://explorer.superseed.xyz/address/")
    } else if i == 22 {
        ("167000", "Taiko Mainnet", "https://taikoscan.io/address/")
    } else if i == 23 {
        ("5845", "Tangle", "https://explorer.tangle.tools/address/")
    } else if i == 24 {
        ("50", "XDC", "https://xdcscan.com/address/")
    } else if i == 25 {
        ("324", "zkSync Era", "https://era.zksync.network/address/")
    } else if i == 26 {
        ("11155111", "Sepolia", "https://sepolia.etherscan.io/address/")
    } else if i == 27 {
        ("421614", "Arbitrum Sepolia", "https://sepolia.arbiscan.io/address/")
    } else if i == 28 {
        ("84532", "Base Sepolia", "https://sepolia.basescan.org/address/")
    } else if i == 29 {
        ("80084", "Berachain Bartio", "https://sepolia.berachain.io/address/")
    } else if i == 30 {
        ("168587773", "Blast Sepolia", "https://sepolia.blastscan.io/address/")
    } else if i == 31 {
        ("59141", "Linea Sepolia", "https://sepolia.lineascan.build/address/")
    } else if i == 32 {
        ("919", "Mode Sepolia", "https://sepolia.explorer.mode.network/address/")
    } else if i == 33 {
        ("10143", "Monad Testnet", "https://testnet.monadexplorer.com/address/")
    } else if i == 34 {
        ("2810", "Morph Holesky", "https://sepolia.morphl2.io/address/")
    } else if i == 35 {
        ("11155420", "Optimism Sepolia", "https://sepolia.optimistic.etherscan.io/address/")
    } else if i == 36 {
        ("974399131", "SKALE Testnet", "https://sepolia.skale.io/address/")
    } else if i == 37 {
        ("53302", "Superseed Sepolia", "https://sepolia.superseed.xyz/address/")
    } else if i == 38 {
        ("167009", "Taiko Hekla", "https://sepolia.taikoscan.io/address/")
    } else {
        ("300", "zkSync Sepolia", "https://sepolia.zksync.network/address/")
    }
}

/// The first row at or after `from` whose id is `chain_id`.
pub open spec fn mapped_row_with_id(chain_id: Seq<char>, from: nat) -> Option<int>
    decreases MAPPED_CHAINS - from,
{
    if from >= MAPPED_CHAINS {
        None
    } else if mapped_row(from as int).0 == chain_id {
        Some(from as int)
    } else {
        mapped_row_with_id(chain_id, from + 1)
    }
}

/// Finds the first row whose id is `chain_id`.
fn find(chain_id: &str) -> (found: Option<usize>)
    ensures
        match mapped_row_with_id(chain_id@, 0) {
            Some(i) => found == Some(i as usize) && 0 <= i < MAPPED_CHAINS,
            None => found.is_none(),
        },
{
    let mut i: usize = 0;
    while i < MAPPED_CHAINS
        invariant
            i <= MAPPED_CHAINS,
            mapped_row_with_id(chain_id@, 0) == mapped_row_with_id(chain_id@, i as nat),
        decreases MAPPED_CHAINS - i,
    {
        if str_eq(row(i).0, chain_id) {
            return Some(i);
        }
        i += 1;
    }
    None
}

/// The display name of the chain with this id; the id itself where it is
/// unknown.
pub fn chain_name<'a>(chain_id: &'a str) -> (name: &'a str)
    ensures
        name@ == match mapped_row_with_id(chain_id@, 0) {
            Some(i) => mapped_row(i).1,
            None => chain_id@,
        },
{
    match find(chain_id) {
        Some(i) => row(i).1,
        None => chain_id,
    }
}

/// The explorer page of a contract on the chain with this id: the chain's
/// address URL followed by the contract's address; `<N/A>` where the chain is
/// unknown.
pub fn explorer_url(chain_id: &str, contract_addr: &str) -> (url: String)
    ensures
        url@ == match mapped_row_with_id(chain_id@, 0) {
            Some(i) => mapped_row(i).2 + contract_addr@,
            None => "<N/A>"@,
        },
{
    match find(chain_id) {
        Some(i) => {
            let mut url = String::from_str(row(i).2);
            url.append(contract_addr);
            url
        },
        None => String::from_str("<N/A>"),
    }
}

} // verus!
