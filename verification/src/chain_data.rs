//! The chains that deployments are reported for: ids, display names and
//! block explorers, and lookups by id or by part of a name.

use crate::text::{contains_text, lowercase_text, str_contains, str_eq, to_lowercase};
use vstd::prelude::*;
use vstd::string::StringExecFns;

verus! {

/// What is known of a chain besides its id.
#[derive(Clone, Copy, Debug, PartialEq, Eq)]
pub struct ChainData {
    pub explorer_url: &'static str,
    pub name: &'static str,
}

/// The number of rows in the table of chains.
pub const CHAIN_COUNT: usize = 40;

/// Row `i` of the table of chains: id, display name, explorer URL. Mainnets
/// come first, then testnets.
pub open spec fn chain_row(i: int) -> (Seq<char>, Seq<char>, Seq<char>) {
    if i == 0 {
        ("1"@, "Ethereum Mainnet"@, "https://etherscan.io/"@)
    } else if i == 1 {
        ("2741"@, "Abstract"@, "https://abscan.org/"@)
    } else if i == 2 {
        ("42161"@, "Arbitrum One"@, "https://arbiscan.io/"@)
    } else if i == 3 {
        ("43114"@, "Avalanche"@, "https://snowtrace.io/"@)
    } else if i == 4 {
        ("8453"@, "Base"@, "https://basescan.org/"@)
    } else if i == 5 {
        ("80094"@, "Berachain"@, "https://berascan.com/"@)
    } else if i == 6 {
        ("81457"@, "Blast"@, "https://blastscan.io/"@)
    } else if i == 7 {
        ("56"@, "BNB Smart Chain"@, "https://bscscan.com/"@)
    } else if i == 8 {
        ("88888"@, "Chiliz"@, "https://chiliscan.com/"@)
    } else if i == 9 {
        ("1116"@, "Core Dao"@, "https://scan.coredao.org/"@)
    } else if i == 10 {
        ("478"@, "Form"@, "https://explorer.form.network/"@)
    } else if i == 11 {
        ("100"@, "Gnosis"@, "https://gnosisscan.io/"@)
    } else if i == 12 {
        ("4689"@, "IoTex"@, "https://iotexscan.io/"@)
    } else if i == 13 {
        ("1890"@, "Lightlink"@, "https://phoenix.lightlink.io/"@)
    } else if i == 14 {
        ("59144"@, "Linea"@, "https://lineascan.build/"@)
    } else if i == 15 {
        ("333000333"@, "Meld"@, "https://meldscan.io/"@)
    } else if i == 16 {
        ("34443"@, "Mode"@, "https://explorer.mode.network/"@)
    } else if i == 17 {
        ("2818"@, "Morph"@, "https://explorer.morphl2.io/"@)
    } else if i == 18 {
        ("10"@, "Optimism"@, "https://optimistic.etherscan.io/"@)
    } else if i == 19 {
        ("137"@, "Polygon"@, "https://polygonscan.com/"@)
    } else if i == 20 {
        ("534352"@, "Scroll"@, "https://scrollscan.com/"@)
    } else if i == 21 {
        ("5330"@, "Superseed"@, "https://explorer.superseed.xyz/"@)
    } else if i == 22 {
        ("167000"@, "Taiko Mainnet"@, "https://taikoscan.io/"@)
    } else if i == 23 {
        ("5845"@, "Tangle"@, "https://explorer.tangle.tools/"@)
    } else if i == 24 {
        ("50"@, "XDC"@, "https://xdcscan.com/"@)
    } else if i == 25 {
        ("324"@, "zkSync Era"@, "https://era.zksync.network/"@)
    } else if i == 26 {
        ("11155111"@, "Sepolia"@, "https://sepolia.etherscan.io/"@)
    } else if i == 27 {
        ("421614"@, "Arbitrum Sepolia"@, "https://sepolia.arbiscan.io/"@)
    } else if i == 28 {
        ("84532"@, "Base Sepolia"@, "https://sepolia.basescan.org/"@)
    } else if i == 29 {
        ("80084"@, "Berachain Bartio"@, "https://sepolia.berachain.io/"@)
    } else if i == 30 {
        ("168587773"@, "Blast Sepolia"@, "https://sepolia.blastscan.io/"@)
    } else if i == 31 {
        ("59141"@, "Linea Sepolia"@, "https://sepolia.lineascan.build/"@)
    } else if i == 32 {
        ("919"@, "Mode Sepolia"@, "https://sepolia.explorer.mode.network/"@)
    } else if i == 33 {
        ("10143"@, "Monad Testnet"@, "https://testnet.monadexplorer.com/"@)
    } else if i == 34 {
        ("2810"@, "Morph Holesky"@, "https://sepolia.morphl2.io/"@)
    } else if i == 35 {
        ("11155420"@, "Optimism Sepolia"@, "https://sepolia-optimism.etherscan.io/"@)
    } else if i == 36 {
        ("974399131"@, "SKALE Testnet"@, "https://sepolia.skale.io/"@)
    } else if i == 37 {
        ("53302"@, "Superseed Sepolia"@, "sepolia-explorer.superseed.xyz/"@)
    } else if i == 38 {
        ("167009"@, "Taiko Hekla"@, "https://hekla.taikoexplorer.com/"@)
    } else {
        ("300"@, "zkSync Sepolia"@, "https://sepolia-era.zksync.network/"@)
    }
}

/// Row `i` of the table of chains.
fn row(i: usize) -> (r: (&'static str, ChainData))
    requires
        i < CHAIN_COUNT,
    ensures
        r.0@ == chain_row(i as int).0,
        r.1.name@ == chain_row(i as int).1,
        r.1.explorer_url@ == chain_row(i as int).2,
{
    if i == 0 {
        ("1", ChainData { explorer_url: "https://etherscan.io/", name: "Ethereum Mainnet" })
    } else if i == 1 {
        ("2741", ChainData { explorer_url: "https://abscan.org/", name: "Abstract" })
    } else if i == 2 {
        ("42161", ChainData { explorer_url: "https://arbiscan.io/", name: "Arbitrum One" })
    } else if i == 3 {
        ("43114", ChainData { explorer_url: "https://snowtrace.io/", name: "Avalanche" })
    } else if i == 4 {
        ("8453", ChainData { explorer_url: "https://basescan.org/", name: "Base" })
    } else if i == 5 {
        ("80094", ChainData { explorer_url: "https://berascan.com/", name: "Berachain" })
    } else if i == 6 {
        ("81457", ChainData { explorer_url: "https://blastscan.io/", name: "Blast" })
    } else if i == 7 {
        ("56", ChainData { explorer_url: "https://bscscan.com/", name: "BNB Smart Chain" })
    } else if i == 8 {
        ("88888", ChainData { explorer_url: "https://chiliscan.com/", name: "Chiliz" })
    } else if i == 9 {
        ("1116", ChainData { explorer_url: "https://scan.coredao.org/", name: "Core Dao" })
    } else if i == 10 {
        ("478", ChainData { explorer_url: "https://explorer.form.network/", name: "Form" })
    } else if i == 11 {
        ("100", ChainData { explorer_url: "https://gnosisscan.io/", name: "Gnosis" })
    } else if i == 12 {
        ("4689", ChainData { explorer_url: "https://iotexscan.io/", name: "IoTex" })
    } else if i == 13 {
        ("1890", ChainData { explorer_url: "https://phoenix.lightlink.io/", name: "Lightlink" })
    } else if i == 14 {
        ("59144", ChainData { explorer_url: "https://lineascan.build/", name: "Linea" })
    } else if i == 15 {
        ("333000333", ChainData { explorer_url: "https://meldscan.io/", name: "Meld" })
    } else if i == 16 {
        ("34443", ChainData { explorer_url: "https://explorer.mode.network/", name: "Mode" })
    } else if i == 17 {
        ("2818", ChainData { explorer_url: "https://explorer.morphl2.io/", name: "Morph" })
    } else if i == 18 {
        ("10", ChainData { explorer_url: "https://optimistic.etherscan.io/", name: "Optimism" })
    } else if i == 19 {
        ("137", ChainData { explorer_url: "https://polygonscan.com/", name: "Polygon" })
    } else if i == 20 {
        ("534352", ChainData { explorer_url: "https://scrollscan.com/", name: "Scroll" })
    } else if i == 21 {
        ("5330", ChainData { explorer_url: "https://explorer.superseed.xyz/", name: "Superseed" })
    } else if i == 22 {
        ("167000", ChainData { explorer_url: "https://taikoscan.io/", name: "Taiko Mainnet" })
    } else if i == 23 {
        ("5845", ChainData { explorer_url: "https://explorer.tangle.tools/", name: "Tangle" })
    } else if i == 24 {
        ("50", ChainData { explorer_url: "https://xdcscan.com/", name: "XDC" })
    } else if i == 25 {
        ("324", ChainData { explorer_url: "https://era.zksync.network/", name: "zkSync Era" })
    } else if i == 26 {
        ("11155111", ChainData { explorer_url: "https://sepolia.etherscan.io/", name: "Sepolia" })
    } else if i == 27 {
        ("421614", ChainData { explorer_url: "https://sepolia.arbiscan.io/", name: "Arbitrum Sepolia" })
    } else if i == 28 {
        ("84532", ChainData { explorer_url: "https://sepolia.basescan.org/", name: "Base Sepolia" })
    } else if i == 29 {
        ("80084", ChainData { explorer_url: "https://sepolia.berachain.io/", name: "Berachain Bartio" })
    } else if i == 30 {
        ("168587773", ChainData { explorer_url: "https://sepolia.blastscan.io/", name: "Blast Sepolia" })
    } else if i == 31 {
        ("59141", ChainData { explorer_url: "https://sepolia.lineascan.build/", name: "Linea Sepolia" })
    } else if i == 32 {
        ("919", ChainData { explorer_url: "https://sepolia.explorer.mode.network/", name: "Mode Sepolia" })
    } else if i == 33 {
        ("10143", ChainData { explorer_url: "https://testnet.monadexplorer.com/", name: "Monad Testnet" })
    } else if i == 34 {
        ("2810", ChainData { explorer_url: "https://sepolia.morphl2.io/", name: "Morph Holesky" })
    } else if i == 35 {
        ("11155420", ChainData { explorer_url: "https://sepolia-optimism.etherscan.io/", name: "Optimism Sepolia" })
    } else if i == 36 {
        ("974399131", ChainData { explorer_url: "https://sepolia.skale.io/", name: "SKALE Testnet" })
    } else if i == 37 {
        ("53302", ChainData { explorer_url: "sepolia-explorer.superseed.xyz/", name: "Superseed Sepolia" })
    } else if i == 38 {
        ("167009", ChainData { explorer_url: "https://hekla.taikoexplorer.com/", name: "Taiko Hekla" })
    } else {
        ("300", ChainData { explorer_url: "https://sepolia-era.zksync.network/", name: "zkSync Sepolia" })
    }
}

/// The first row at or after `from` whose id is `chain_id`.
pub open spec fn row_with_id(chain_id: Seq<char>, from: nat) -> Option<int>
    decreases CHAIN_COUNT - from,
{
    if from >= CHAIN_COUNT {
        None
    } else if chain_row(from as int).0 == chain_id {
        Some(from as int)
    } else {
        row_with_id(chain_id, from + 1)
    }
}

/// Whether the name in row `i` holds `query`, both taken in lower case.
pub open spec fn name_holds(i: int, query: Seq<char>) -> bool {
    contains_text(lowercase_text(chain_row(i).1), lowercase_text(query))
}

/// The first row at or after `from` whose name holds `query`, case ignored.
pub open spec fn row_with_name(query: Seq<char>, from: nat) -> Option<int>
    decreases CHAIN_COUNT - from,
{
    if from >= CHAIN_COUNT {
        None
    } else if name_holds(from as int, query) {
        Some(from as int)
    } else {
        row_with_name(query, from + 1)
    }
}

/// Finds the first row whose id is `chain_id`.
fn find_by_id(chain_id: &str) -> (found: Option<usize>)
    ensures
        match row_with_id(chain_id@, 0) {
            Some(i) => found == Some(i as usize) && 0 <= i < CHAIN_COUNT,
            None => found.is_none(),
        },
{
    let mut i: usize = 0;
    while i < CHAIN_COUNT
        invariant
            i <= CHAIN_COUNT,
            row_with_id(chain_id@, 0) == row_with_id(chain_id@, i as nat),
        decreases CHAIN_COUNT - i,
    {
        if str_eq(row(i).0, chain_id) {
            return Some(i);
        }
        i += 1;
    }
    None
}

/// Finds the first row whose name holds `chain_name`, case ignored.
fn find_by_name(chain_name: &str) -> (found: Option<usize>)
    ensures
        match row_with_name(chain_name@, 0) {
            Some(i) => found == Some(i as usize) && 0 <= i < CHAIN_COUNT,
            None => found.is_none(),
        },
{
    let query = to_lowercase(chain_name);
    let mut i: usize = 0;
    while i < CHAIN_COUNT
        invariant
            i <= CHAIN_COUNT,
            query@ == lowercase_text(chain_name@),
            row_with_name(chain_name@, 0) == row_with_name(chain_name@, i as nat),
        decreases CHAIN_COUNT - i,
    {
        let name = to_lowercase(row(i).1.name);
        if str_contains(name.as_str(), query.as_str()) {
            return Some(i);
        }
        i += 1;
    }
    None
}

/// The id of the first chain whose name holds `chain_name`, case ignored;
/// `chain_name` itself where there is none.
pub fn get_chain_id<'a>(chain_name: &'a str) -> (id: &'a str)
    ensures
        id@ == match row_with_name(chain_name@, 0) {
            Some(i) => chain_row(i).0,
            None => chain_name@,
        },
{
    match find_by_name(chain_name) {
        Some(i) => row(i).0,
        None => chain_name,
    }
}

/// What is known of the chain with this id, if it is in the table.
pub fn get_data(chain_id: &str) -> (data: Option<ChainData>)
    ensures
        match row_with_id(chain_id@, 0) {
            Some(i) => data.is_some() && data.unwrap().name@ == chain_row(i).1
                && data.unwrap().explorer_url@ == chain_row(i).2,
            None => data.is_none(),
        },
{
    match find_by_id(chain_id) {
        Some(i) => Some(row(i).1),
        None => None,
    }
}

/// The explorer URL of the chain with this id; `<N/A>` where it is unknown.
pub fn get_explorer_url(chain_id: &str) -> (url: String)
    ensures
        url@ == match row_with_id(chain_id@, 0) {
            Some(i) => chain_row(i).2,
            None => "<N/A>"@,
        },
{
    match get_data(chain_id) {
        Some(data) => String::from_str(data.explorer_url),
        None => String::from_str("<N/A>"),
    }
}

/// The explorer URL of the first chain whose name holds `chain_name`, case
/// ignored; `<N/A>` where there is none.
pub fn get_explorer_url_by_name(chain_name: &str) -> (url: String)
    ensures
        url@ == match row_with_name(chain_name@, 0) {
            Some(i) => chain_row(i).2,
            None => "<N/A>"@,
        },
{
    match find_by_name(chain_name) {
        Some(i) => String::from_str(row(i).1.explorer_url),
        None => String::from_str("<N/A>"),
    }
}

/// The explorer page of a contract: the chain's explorer URL, `address/` and
/// the contract's address; `<N/A>` where the chain is unknown.
pub fn get_explorer_url_with_address(chain_id: &str, contract_addr: &str) -> (url: String)
    ensures
        url@ == match row_with_id(chain_id@, 0) {
            Some(i) => chain_row(i).2 + "address/"@ + contract_addr@,
            None => "<N/A>"@,
        },
{
    match get_data(chain_id) {
        Some(data) => {
            let mut url = String::from_str(data.explorer_url);
            url.append("address/");
            url.append(contract_addr);
            url
        },
        None => String::from_str("<N/A>"),
    }
}

/// The display name of the chain with this id; the id itself where it is
/// unknown.
pub fn get_name<'a>(chain_id: &'a str) -> (name: &'a str)
    ensures
        name@ == match row_with_id(chain_id@, 0) {
            Some(i) => chain_row(i).1,
            None => chain_id@,
        },
{
    match find_by_id(chain_id) {
        Some(i) => row(i).1.name,
        None => chain_id,
    }
}

} // verus!
