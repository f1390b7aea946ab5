use collect_fee::verify::{
    abi_encode, get_verifier_flags, process_chain, verify_command, verify_contracts,
    ConstructorArg, TransactionEntry, VerifyCommand, VerifyData,
};

fn strings(items: &[&str]) -> Vec<String> {
    items.iter().map(|s| s.to_string()).collect()
}

#[test]
fn verifier_flags_by_chain() {
    assert_eq!(
        get_verifier_flags("sepolia"),
        strings(&["--verify", "--etherscan-api-key", "$SEPOLIA_API_KEY"])
    );
    assert_eq!(
        get_verifier_flags("base_sepolia"),
        strings(&["--verify", "--etherscan-api-key", "$BASE_SEPOLIA_API_KEY"])
    );
    assert_eq!(
        get_verifier_flags("mode"),
        strings(&[
            "--verify",
            "--etherscan-api-key",
            "\"verifyContract\"",
            "--verifier-url",
            "https://explorer.mode.network/api\\?",
        ])
    );
    assert_eq!(get_verifier_flags("form")[4], "<N/A>api\\?");
    assert_eq!(get_verifier_flags("lightlink")[4], "https://phoenix.lightlink.io/api\\?");
    assert_eq!(get_verifier_flags("morph")[4], "https://explorer.morphl2.io/api\\?");
    assert_eq!(get_verifier_flags("superseed")[4], "https://explorer.superseed.xyz/api\\?");
    assert_eq!(
        get_verifier_flags("chiliz"),
        strings(&[
            "--verify",
            "--etherscan-api-key",
            "\"verifyContract\"",
            "--verifier-url",
            "https://api.routescan.io/v2/network/mainnet/evm/88888/etherscan",
        ])
    );
}

#[test]
fn constructor_arguments_are_encoded_as_words() {
    let args = vec![
        ConstructorArg::Text("0x1111111111111111111111111111111111111111".to_string()),
        ConstructorArg::Number(1000),
    ];
    let expected = format!("0x{}{}{}{}", "0".repeat(24), "11".repeat(20), "0".repeat(61), "3e8");
    assert_eq!(abi_encode(&args), Ok(expected));
    assert_eq!(abi_encode(&vec![]), Ok("0x".to_string()));
    assert_eq!(
        abi_encode(&vec![ConstructorArg::Number(u64::MAX)]),
        Ok(format!("0x{}{}", "0".repeat(48), "f".repeat(16)))
    );
}

#[test]
fn constructor_arguments_that_cannot_be_encoded() {
    assert_eq!(
        abi_encode(&vec![ConstructorArg::Number(1), ConstructorArg::Other, ConstructorArg::Text("zz".to_string())]),
        Err("Unsupported constructor argument type".to_string())
    );
    let error = abi_encode(&vec![ConstructorArg::Text("0x12".to_string())]).unwrap_err();
    assert!(error.starts_with("Failed to parse address 0x12: "), "{error}");
    let error = abi_encode(&vec![ConstructorArg::Text("hello".to_string())]).unwrap_err();
    assert!(error.starts_with("Failed to parse address hello: "), "{error}");
}

fn data(name: Option<&str>, address: Option<&str>) -> VerifyData {
    VerifyData {
        contract_name: name.map(|s| s.to_string()),
        contract_address: address.map(|s| s.to_string()),
        arguments: None,
        libraries: None,
    }
}

#[test]
fn verify_command_for_a_contract() {
    let mut d = data(Some("SablierLockup"), Some("0xabc"));
    d.arguments = Some(vec![ConstructorArg::Number(1)]);
    d.libraries = Some(strings(&["src/libraries/Helpers.sol:Helpers:0x1", "", "lib2"]));
    let expected = strings(&[
        "verify-contract",
        "0xabc",
        "src/SablierLockup.sol:SablierLockup",
        "--constructor-args",
        &format!("0x{}1", "0".repeat(63)),
        "--libraries",
        "src/libraries/Helpers.sol:Helpers:0x1",
        "--libraries",
        "lib2",
        "--verify",
        "--etherscan-api-key",
        "$SEPOLIA_API_KEY",
    ]);
    assert_eq!(verify_command("sepolia", &d), VerifyCommand::Run { args: expected });
}

#[test]
fn verify_command_without_arguments_or_libraries() {
    let mut d = data(Some("Flow"), Some("0xdef"));
    d.arguments = Some(vec![]);
    let expected = strings(&[
        "verify-contract",
        "0xdef",
        "src/Flow.sol:Flow",
        "--verify",
        "--etherscan-api-key",
        "$MAINNET_API_KEY",
    ]);
    assert_eq!(verify_command("mainnet", &d), VerifyCommand::Run { args: expected });
}

#[test]
fn verify_command_skips_and_fails() {
    assert_eq!(verify_command("sepolia", &data(None, Some("0xabc"))), VerifyCommand::Skip);
    assert_eq!(verify_command("sepolia", &data(Some("A"), None)), VerifyCommand::Skip);
    let mut d = data(Some("A"), Some("0xabc"));
    d.arguments = Some(vec![ConstructorArg::Other]);
    assert_eq!(
        verify_command("sepolia", &d),
        VerifyCommand::EncodingFailed { error: "Unsupported constructor argument type".to_string() }
    );
}

#[test]
fn every_record_gets_its_command() {
    let mut bad = data(Some("B"), Some("0x2"));
    bad.arguments = Some(vec![ConstructorArg::Other]);
    let records = vec![
        ("sepolia".to_string(), data(Some("A"), Some("0x1"))),
        ("sepolia".to_string(), bad),
        ("chiliz".to_string(), data(None, None)),
        ("chiliz".to_string(), data(Some("C"), Some("0x3"))),
    ];
    let commands = verify_contracts(&records);
    assert_eq!(commands.len(), 4);
    assert_eq!(commands[0], verify_command("sepolia", &records[0].1));
    assert!(matches!(commands[0], VerifyCommand::Run { .. }));
    assert!(matches!(commands[1], VerifyCommand::EncodingFailed { .. }));
    assert_eq!(commands[2], VerifyCommand::Skip);
    match &commands[3] {
        VerifyCommand::Run { args } => assert_eq!(args[2], "src/C.sol:C"),
        other => panic!("unexpected {other:?}"),
    }
}

#[test]
fn transactions_are_gathered_per_chain() {
    let mut gathered = vec![("mainnet".to_string(), data(Some("Old"), Some("0x0")))];
    let transactions = vec![
        TransactionEntry {
            contract_name: Some("A".to_string()),
            contract_address: Some("0x1".to_string()),
            arguments: Some(vec![ConstructorArg::Number(5)]),
        },
        TransactionEntry { contract_name: None, contract_address: None, arguments: Some(vec![]) },
    ];
    let libraries = Some(strings(&["a:B:0x9"]));
    process_chain("sepolia", &libraries, transactions, &mut gathered);
    assert_eq!(gathered.len(), 3);
    assert_eq!(gathered[0], ("mainnet".to_string(), data(Some("Old"), Some("0x0"))));
    assert_eq!(
        gathered[1],
        (
            "sepolia".to_string(),
            VerifyData {
                contract_name: Some("A".to_string()),
                contract_address: Some("0x1".to_string()),
                arguments: Some(vec![ConstructorArg::Number(5)]),
                libraries: libraries.clone(),
            }
        )
    );
    assert_eq!(
        gathered[2],
        (
            "sepolia".to_string(),
            VerifyData { contract_name: None, contract_address: None, arguments: None, libraries }
        )
    );
}
