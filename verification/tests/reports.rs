use collect_fee::broadcast::{
    broadcast_file_path, extract_chain_id, get_block_number, get_snake_case_name, list_contracts,
    Broadcast, ReturnedContract,
};

fn returned(internal_type: Option<&str>, value: Option<&str>) -> ReturnedContract {
    ReturnedContract {
        internal_type: internal_type.map(|s| s.to_string()),
        value: value.map(|s| s.to_string()),
    }
}

#[test]
fn chain_id_is_read_from_the_output() {
    let output = "Compiling...\n  Chain 11155111\n\nEstimated gas price: 1 gwei\nChain 5\n";
    assert_eq!(extract_chain_id(output), "11155111");
    assert_eq!(extract_chain_id("Chain 1\r\nrest"), "1");
    assert_eq!(extract_chain_id("nothing here"), "");
    assert_eq!(extract_chain_id("Chain \nChain 7"), "7");
    assert_eq!(extract_chain_id("Chains 7"), "");
    assert_eq!(extract_chain_id(""), "");
}

#[test]
fn broadcast_is_made_from_output_and_script() {
    let b = Broadcast::new("Chain 10\n", "DeployLockup.s.sol", true, "2.0.0".to_string()).unwrap();
    assert_eq!(b.file_path(), "broadcast/DeployLockup.s.sol/10/run-latest.json");
    assert_eq!(b.chain_id(), "10");
    assert_eq!(b.project(), "lockup");
    assert_eq!(b.version(), "2.0.0");
    let b = Broadcast::new("", "DeployFlow.s.sol", false, "1.1.0".to_string()).unwrap();
    assert_eq!(b.file_path(), "broadcast/DeployFlow.s.sol//dry-run/run-latest.json");
    assert_eq!(b.project(), "flow");
    for script in ["DeployMerkleFactory.s.sol", "DeployFactories.s.sol"] {
        let b = Broadcast::new("Chain 1", script, true, "1".to_string()).unwrap();
        assert_eq!(b.project(), "airdrops");
    }
    let b = Broadcast::new("Chain 1", "DeployProtocolFlow.s.sol", true, "1".to_string()).unwrap();
    assert_eq!(b.project(), "lockup");
    assert_eq!(Broadcast::new("Chain 1", "Deploy.s.sol", true, "1".to_string()), None);
    assert_eq!(broadcast_file_path("S", "1", false), "broadcast/S/1/dry-run/run-latest.json");
}

#[test]
fn broadcast_copy_goes_to_the_sdk() {
    let b = Broadcast::new("Chain 10\n", "DeployLockup.s.sol", true, "2.0.0".to_string()).unwrap();
    assert_eq!(
        b.copy_broadcast_file("optimism"),
        (
            "broadcast/DeployLockup.s.sol/10/run-latest.json".to_string(),
            "../sdk/lockup/v2.0.0/broadcasts/optimism.json".to_string()
        )
    );
}

#[test]
fn snake_case_names() {
    assert_eq!(get_snake_case_name("SablierLockup"), "SABLIER_LOCKUP");
    assert_eq!(get_snake_case_name("SablierMerkleFactoryVCA"), "SABLIER_MERKLE_FACTORY_VCA");
    assert_eq!(get_snake_case_name("NFTDescriptor"), "NFT_DESCRIPTOR");
    assert_eq!(get_snake_case_name("helpers"), "HELPERS");
    assert_eq!(get_snake_case_name("ABC"), "ABC");
    assert_eq!(get_snake_case_name("aB"), "A_B");
    assert_eq!(get_snake_case_name(""), "");
}

#[test]
fn block_numbers() {
    assert_eq!(get_block_number(Some("0x10")), "16");
    assert_eq!(get_block_number(Some("ff")), "255");
    assert_eq!(get_block_number(Some("0x0x1")), "1");
    assert_eq!(get_block_number(Some("0xffffffffffffffff")), "18446744073709551615");
    assert_eq!(get_block_number(Some("0x10000000000000000")), "");
    assert_eq!(get_block_number(Some("0xzz")), "");
    assert_eq!(get_block_number(Some("")), "");
    assert_eq!(get_block_number(None), "");
}

#[test]
fn contracts_are_listed_returns_first() {
    let rets = vec![
        returned(Some("contract SablierLockup"), Some("0x1")),
        returned(None, Some("0x2")),
        returned(Some("contract X"), None),
        returned(Some("   "), Some("0x3")),
        returned(Some("LockupNFTDescriptor"), Some("0x4")),
    ];
    let libs = vec!["src/libraries/Helpers.sol:Helpers:0x5".to_string(), "a:b".to_string(), "a:B:0x6:extra".to_string()];
    let listed = list_contracts(&rets, &libs);
    let expected: Vec<(String, String)> = [
        ("SablierLockup", "0x1"),
        ("LockupNFTDescriptor", "0x4"),
        ("Helpers", "0x5"),
        ("B", "0x6"),
    ]
    .iter()
    .map(|(a, b)| (a.to_string(), b.to_string()))
    .collect();
    assert_eq!(listed, expected);
}

#[test]
fn deployment_table_in_markdown() {
    let b = Broadcast::new("Chain 1\n", "DeployLockup.s.sol", true, "2.0.0".to_string()).unwrap();
    let rets = vec![returned(Some("contract SablierLockup"), Some("0xabc"))];
    let libs = vec!["src/libraries/Helpers.sol:Helpers:0xdef".to_string()];
    let expected = "## Ethereum Mainnet\n\n\
| Contract | Address | Deployment |\n\
| :------- | :------ | :----------|\n\
| SablierLockup | [0xabc](https://etherscan.io/address/0xabc) | [v2.0.0](https://github.com/sablier-labs/deployments/blob/main/lockup/v2.0.0) |\n\
| Helpers | [0xdef](https://etherscan.io/address/0xdef) | [v2.0.0](https://github.com/sablier-labs/deployments/blob/main/lockup/v2.0.0) |\n\
\n";
    assert_eq!(b.generate_deployment_table(&rets, &libs), expected);
    let unknown = Broadcast::new("Chain 31337\n", "DeployFlow.s.sol", true, "1".to_string()).unwrap();
    assert_eq!(
        unknown.generate_deployment_table(&rets, &vec![]),
        "## 31337\n\n| Contract | Address | Deployment |\n| :------- | :------ | :----------|\n\
| SablierLockup | [0xabc](<N/A>) | [v1](https://github.com/sablier-labs/deployments/blob/main/flow/v1) |\n\n"
    );
}

#[test]
fn deployments_file_entries() {
    let b = Broadcast::new("Chain 1\n", "DeployLockup.s.sol", true, "2.0.0".to_string()).unwrap();
    let rets = vec![returned(Some("contract SablierLockup"), Some("0xabc"))];
    let libs = vec!["src/libraries/Helpers.sol:Helpers:0xdef".to_string()];
    let expected = "get( \n\
chains.mainnet.id, { [manifest.SABLIER_LOCKUP]: [\"0xabc\", 255]\
chains.mainnet.id, { [manifest.HELPERS]: [\"0xdef\", 255]\
\n}),";
    assert_eq!(b.get_deployments_file("mainnet", &rets, &libs, Some("0xff")), expected);
    assert_eq!(b.get_deployments_file("mainnet", &vec![], &vec![], None), "get( \n\n}),");
}
