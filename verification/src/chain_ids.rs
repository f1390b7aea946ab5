//! The chains by the names that the deployment tool knows them under: ids
//! and block explorers.

use crate::chain_data::ChainData;
use crate::text::{contains_text, lowercase_text, str_contains, str_eq, to_lowercase};
use vstd::prelude::*;
use vstd::string::StringExecFns;

verus! {

/// The number of rows in the table of named chains.
pub const NAMED_CHAINS: usize = 32;

/// Row `i` of the table of named chains: id, name, explorer URL. Mainnets
/// come first, then testnets.
pub open spec fn named_row(i: int) -> (Seq<char>, Seq<char>, Seq<char>) {
    if i == 0 {
        ("1"@, "ethereum"@, "https://etherscan.io/"@)
    } else if i == 1 {
        ("2741"@, "abstract"@, "https://abscan.org/"@)
    } else if i == 2 {
        ("42161"@, "arbitrum"@, "https://arbiscan.io/"@)
    } else if i == 3 {
        ("43114"@, "avalanche"@, "https://snowtrace.io/"@)
    } else if i == 4 {
        ("8453"@, "base"@, "https://basescan.org/"@)
    } else if i == 5 {
        ("80094"@, "berachain"@, "https://berascan.com/"@)
    } else if i == 6 {
        ("81457"@, "blast"@, "https://blastscan.io/"@)
    } else if i == 7 {
        ("56"@, "bsc"@, "https://bscscan.com/"@)
    } else if i == 8 {
        ("88888"@, "chiliz"@, "https://chiliscan.com/"@)
    } else if i == 9 {
        ("1116"@, "core_dao"@, "https://scan.coredao.org/"@)
    } else if i == 10 {
        ("100"@, "gnosis"@, "https://gnosisscan.io/"@)
    } else if i == 11 {
        ("999"@, "hyperevm"@, "https://hyperevmscan.io/"@)
    } else if i == 12 {
        ("1890"@, "lightlink"@, "https://phoenix.lightlink.io/"@)
    } else if i == 13 {
        ("59144"@, "linea"@, "https://lineascan.build/"@)
    } else if i == 14 {
        ("34443"@, "mode"@, "https://explorer.mode.network/"@)
    } else if i == 15 {
        ("2818"@, "morph"@, "https://explorer.morphl2.io/"@)
    } else if i == 16 {
        ("10"@, "optimism"@, "https://optimistic.etherscan.io/"@)
    } else if i == 17 {
        ("137"@, "polygon"@, "https://polygonscan.com/"@)
    } else if i == 18 {
        ("534352"@, "scroll"@, "https://scrollscan.com/"@)
    } else if i == 19 {
        ("1329"@, "sei"@, "https://seiscan.io/"@)
    } else if i == 20 {
        ("146"@, "sonic"@, "https://sonicscan.org/"@)
    } else if i == 21 {
        ("50104"@, "sophon"@, "https://explorer.sophon.xyz/"@)
    } else if i == 22 {
        ("5330"@, "superseed"@, "https://explorer.superseed.xyz/"@)
    } else if i == 23 {
        ("5845"@, "tangle"@, "https://explorer.tangle.tools/"@)
    } else if i == 24 {
        ("130"@, "unichain"@, "https://uniscan.xyz/"@)
    } else if i == 25 {
        ("50"@, "xdc"@, "https://xdcscan.com/"@)
    } else if i == 26 {
        ("324"@, "zksync"@, "https://era.zksync.network/"@)
    } else if i == 27 {
        ("11155111"@, "sepolia"@, "https://sepolia.etherscan.io/"@)
    } else if i == 28 {
        ("421614"@, "arbitrum_sepolia"@, "https://sepolia.arbiscan.io/"@)
    } else if i == 29 {
        ("84532"@, "base_sepolia"@, "https://sepolia.basescan.org/"@)
    } else if i == 30 {
        ("919"@, "mode_sepolia"@, "https://sepolia.explorer.mode.network/"@)
    } else {
        ("11155420"@, "optimism_sepolia"@, "https://sepolia-optimism.etherscan.io/"@)
    }
}

/// Row `i` of the table of named chains.
fn row(i: usize) -> (r: (&'static str, ChainData))
    requires
        i < NAMED_CHAINS,
    ensures
        r.0@ == named_row(i as int).0,
        r.1.name@ == named_row(i as int).1,
        r.1.explorer_url@ == named_row(i as int).2,
{
    if i == 0 {
        ("1", ChainData { explorer_url: "https://etherscan.io/", name: "ethereum" })
    } else if i == 1 {
        ("2741", ChainData { explorer_url: "https://abscan.org/", name: "abstract" })
    } else if i == 2 {
        ("42161", ChainData { explorer_url: "https://arbiscan.io/", name: "arbitrum" })
    } else if i == 3 {
        ("43114", ChainData { explorer_url: "https://snowtrace.io/", name: "avalanche" })
    } else if i == 4 {
        ("8453", ChainData { explorer_url: "https://basescan.org/", name: "base" })
    } else if i == 5 {
        ("80094", ChainData { explorer_url: "https://berascan.com/", name: "berachain" })
    } else if i == 6 {
        ("81457", ChainData { explorer_url: "https://blastscan.io/", name: "blast" })
    } else if i == 7 {
        ("56", ChainData { explorer_url: "https://bscscan.com/", name: "bsc" })
    } else if i == 8 {
        ("88888", ChainData { explorer_url: "https://chiliscan.com/", name: "chiliz" })
    } else if i == 9 {
        ("1116", ChainData { explorer_url: "https://scan.coredao.org/", name: "core_dao" })
    } else if i == 10 {
        ("100", ChainData { explorer_url: "https://gnosisscan.io/", name: "gnosis" })
    } else if i == 11 {
        ("999", ChainData { explorer_url: "https://hyperevmscan.io/", name: "hyperevm" })
    } else if i == 12 {
        ("1890", ChainData { explorer_url: "https://phoenix.lightlink.io/", name: "lightlink" })
    } else if i == 13 {
        ("59144", ChainData { explorer_url: "https://lineascan.build/", name: "linea" })
    } else if i == 14 {
        ("34443", ChainData { explorer_url: "https://explorer.mode.network/", name: "mode" })
    } else if i == 15 {
        ("2818", ChainData { explorer_url: "https://explorer.morphl2.io/", name: "morph" })
    } else if i == 16 {
        ("10", ChainData { explorer_url: "https://optimistic.etherscan.io/", name: "optimism" })
    } else if i == 17 {
        ("137", ChainData { explorer_url: "https://polygonscan.com/", name: "polygon" })
    } else if i == 18 {
        ("534352", ChainData { explorer_url: "https://scrollscan.com/", name: "scroll" })
    } else if i == 19 {
        ("1329", ChainData { explorer_url: "https://seiscan.io/", name: "sei" })
    } else if i == 20 {
        ("146", ChainData { explorer_url: "https://sonicscan.org/", name: "sonic" })
    } else if i == 21 {
        ("50104", ChainData { explorer_url: "https://explorer.sophon.xyz/", name: "sophon" })
    } else if i == 22 {
        ("5330", ChainData { explorer_url: "https://explorer.superseed.xyz/", name: "superseed" })
    } else if i == 23 {
        ("5845", ChainData { explorer_url: "https://explorer.tangle.tools/", name: "tangle" })
    } else if i == 24 {
        ("130", ChainData { explorer_url: "https://uniscan.xyz/", name: "unichain" })
    } else if i == 25 {
        ("50", ChainData { explorer_url: "https://xdcscan.com/", name: "xdc" })
    } else if i == 26 {
        ("324", ChainData { explorer_url: "https://era.zksync.network/", name: "zksync" })
    } else if i == 27 {
        ("11155111", ChainData { explorer_url: "https://sepolia.etherscan.io/", name: "sepolia" })
    } else if i == 28 {
        ("421614", ChainData { explorer_url: "https://sepolia.arbiscan.io/", name: "arbitrum_sepolia" })
    } else if i == 29 {
        ("84532", ChainData { explorer_url: "https://sepolia.basescan.org/", name: "base_sepolia" })
    } else if i == 30 {
        ("919", ChainData { explorer_url: "https://sepolia.explorer.mode.network/", name: "mode_sepolia" })
    } else {
        ("11155420", ChainData { explorer_url: "https://sepolia-optimism.etherscan.io/", name: "optimism_sepolia" })
    }
}

/// The first row at or after `from` whose name is `chain_name`.
pub open spec fn row_named(chain_name: Seq<char>, from: nat) -> Option<int>
    decreases NAMED_CHAINS - from,
{
    if from >= NAMED_CHAINS {
        None
    } else if named_row(from as int).1 == chain_name {
        Some(from as int)
    } else {
        row_named(chain_name, from + 1)
    }
}

/// The first row at or after `from` whose name holds `query`, both taken in
/// lower case.
pub open spec fn row_holding(query: Seq<char>, from: nat) -> Option<int>
    decreases NAMED_CHAINS - from,
{
    if from >= NAMED_CHAINS {
        None
    } else if contains_text(lowercase_text(named_row(from as int).1), lowercase_text(query)) {
        Some(from as int)
    } else {
        row_holding(query, from + 1)
    }
}

/// Finds the first row whose name is `chain_name`.
fn find_named(chain_name: &str) -> (found: Option<usize>)
    ensures
        match row_named(chain_name@, 0) {
            Some(i) => found == Some(i as usize) && 0 <= i < NAMED_CHAINS,
            None => found.is_none(),
        },
{
    let mut i: usize = 0;
    while i < NAMED_CHAINS
        invariant
            i <= NAMED_CHAINS,
            row_named(chain_name@, 0) == row_named(chain_name@, i as nat),
        decreases NAMED_CHAINS - i,
    {
        if str_eq(row(i).1.name, chain_name) {
            return Some(i);
        }
        i += 1;
    }
    None
}

/// Whether a chain of this name is in the table.
pub fn knows_chain(chain_name: &str) -> (known: bool)
    ensures
        known == row_named(chain_name@, 0).is_some(),
{
    find_named(chain_name).is_some()
}

/// The id of the chain of this name, which has to be in the table.
pub fn get_chain_id(chain_name: &str) -> (id: &'static str)
    requires
        row_named(chain_name@, 0).is_some(),
    ensures
        id@ == named_row(row_named(chain_name@, 0).unwrap()).0,
{
    match find_named(chain_name) {
        Some(i) => row(i).0,
        None => "",
    }
}

/// The explorer URL of the first chain whose name holds `chain_name`, case
/// ignored; `<N/A>` where there is none.
pub fn get_explorer_url_by_name(chain_name: &str) -> (url: String)
    ensures
        url@ == match row_holding(chain_name@, 0) {
            Some(i) => named_row(i).2,
            None => "<N/A>"@,
        },
{
    let query = to_lowercase(chain_name);
    let mut i: usize = 0;
    while i < NAMED_CHAINS
        invariant
            i <= NAMED_CHAINS,
            query@ == lowercase_text(chain_name@),
            row_holding(chain_name@, 0) == row_holding(chain_name@, i as nat),
        decreases NAMED_CHAINS - i,
    {
        let name = to_lowercase(row(i).1.name);
        if str_contains(name.as_str(), query.as_str()) {
            return String::from_str(row(i).1.explorer_url);
        }
        i += 1;
    }
    String::from_str("<N/A>")
}

} // verus!
