use collect_fee::deployer::{
    deployment_command, get_all_chains, is_listed, parse_args, select_chains, Options, ParsedArgs,
};

fn strings(items: &[&str]) -> Vec<String> {
    items.iter().map(|s| s.to_string()).collect()
}

fn no_options() -> Options {
    Options {
        broadcast_deployment: false,
        cp_broadcasted_file: false,
        gas_price: String::new(),
        log_broadcasts: false,
        on_all_chains: false,
        provided_chains: vec![],
        sender: String::new(),
        script_name: String::new(),
        show_cli: false,
        verify_deployment: false,
    }
}

#[test]
fn flags_and_chains_are_read() {
    let args = strings(&[
        "--script", "DeployLockup.s.sol", "sepolia", "--broadcast", "--gas-price", "3gwei", "base",
        "--sender", "0xabc", "--cp-bf", "--log", "--show", "--verify", "--what",
    ]);
    let expected = Options {
        broadcast_deployment: true,
        cp_broadcasted_file: true,
        gas_price: "3gwei".to_string(),
        log_broadcasts: true,
        on_all_chains: false,
        provided_chains: strings(&["sepolia", "base"]),
        sender: "0xabc".to_string(),
        script_name: "DeployLockup.s.sol".to_string(),
        show_cli: true,
        verify_deployment: true,
    };
    assert_eq!(parse_args(&args), ParsedArgs::Run { options: expected, unknown: strings(&["--what"]) });
    assert_eq!(parse_args(&vec![]), ParsedArgs::Run { options: no_options(), unknown: vec![] });
}

#[test]
fn all_chains_turns_later_names_away() {
    let args = strings(&["sepolia", "--all", "base", "--script", "S"]);
    let mut expected = no_options();
    expected.on_all_chains = true;
    expected.provided_chains = strings(&["sepolia"]);
    expected.script_name = "S".to_string();
    assert_eq!(parse_args(&args), ParsedArgs::Run { options: expected, unknown: strings(&["base"]) });
}

#[test]
fn help_and_missing_values_end_the_reading() {
    assert_eq!(parse_args(&strings(&["--broadcast", "--help", "--script"])), ParsedArgs::Help);
    for flag in ["--script", "--gas-price", "--sender"] {
        assert_eq!(
            parse_args(&strings(&["sepolia", flag])),
            ParsedArgs::MissingValue { flag: flag.to_string() }
        );
    }
    let mut expected = no_options();
    expected.script_name = "--help".to_string();
    assert_eq!(
        parse_args(&strings(&["--script", "--help"])),
        ParsedArgs::Run { options: expected, unknown: vec![] }
    );
}

#[test]
fn configured_chains_leave_localhost_out() {
    assert_eq!(
        get_all_chains(&strings(&["arbitrum", "localhost", "base", "localhost", "sepolia"])),
        strings(&["arbitrum", "base", "sepolia"])
    );
    assert_eq!(get_all_chains(&vec![]), Vec::<String>::new());
    assert!(is_listed(&strings(&["a", "b"]), "b"));
    assert!(!is_listed(&strings(&["a", "b"]), "c"));
}

#[test]
fn chains_are_chosen() {
    let configured = strings(&["arbitrum", "base", "sepolia"]);
    assert_eq!(
        select_chains(&strings(&["base", "nowhere", "arbitrum", "base"]), configured.clone(), false),
        (strings(&["base", "arbitrum", "base"]), strings(&["nowhere"]))
    );
    assert_eq!(
        select_chains(&strings(&["nowhere"]), configured.clone(), false),
        (strings(&["sepolia"]), strings(&["nowhere"]))
    );
    assert_eq!(select_chains(&vec![], vec![], false), (strings(&["sepolia"]), vec![]));
    assert_eq!(
        select_chains(&strings(&["nowhere"]), configured.clone(), true),
        (configured.clone(), vec![])
    );
    assert_eq!(select_chains(&vec![], vec![], true), (vec![], vec![]));
}

#[test]
fn deployment_commands() {
    let mut options = no_options();
    options.script_name = "DeployLockup.s.sol".to_string();
    assert_eq!(
        deployment_command("sepolia", &options, "0xdefault"),
        strings(&["script", "script/DeployLockup.s.sol", "--rpc-url", "sepolia", "--sender", "0xdefault"])
    );
    options.broadcast_deployment = true;
    options.gas_price = "3gwei".to_string();
    options.sender = "0xme".to_string();
    assert_eq!(
        deployment_command("linea", &options, "0xdefault"),
        strings(&[
            "script",
            "script/DeployLockup.s.sol",
            "--rpc-url",
            "linea",
            "--broadcast",
            "--gas-price",
            "3gwei",
            "--sender",
            "0xme",
            "--legacy",
        ])
    );
    for chain in ["chiliz", "form"] {
        assert_eq!(deployment_command(chain, &options, "d").last().unwrap(), "--legacy");
    }
    assert_eq!(deployment_command("base", &options, "d").last().unwrap(), "0xme");
}
