//! Contract verification on block explorers: the arguments of the command.

use crate::chain_ids::{get_explorer_url_by_name, named_row, row_holding};
use crate::evm::address_word;
use crate::text::{
    lower_hex, push_string, push_text, str_eq, texts_view, to_uppercase, uppercase_text,
};
use vstd::prelude::*;
use vstd::string::StringExecFns;

verus! {

/// Chains whose explorer verifies through its own API.
pub open spec fn uses_explorer_api(chain: Seq<char>) -> bool {
    chain == "form"@ || chain == "lightlink"@ || chain == "mode"@ || chain == "morph"@ || chain
        == "superseed"@
}

/// The explorer URL of the first chain whose name holds `chain`, case
/// ignored; `<N/A>` where there is none.
pub open spec fn explorer_by_name(chain: Seq<char>) -> Seq<char> {
    match row_holding(chain, 0) {
        Some(i) => named_row(i).2,
        None => "<N/A>"@,
    }
}

/// The flags that select the verifier for `chain`. Chains with an explorer
/// API of their own get a placeholder key and the API's URL; every other
/// chain gets the name of the environment variable that holds its key.
pub open spec fn verifier_flags(chain: Seq<char>) -> Seq<Seq<char>> {
    if uses_explorer_api(chain) {
        seq![
            "--verify"@,
            "--etherscan-api-key"@,
            "\"verifyContract\""@,
            "--verifier-url"@,
            explorer_by_name(chain) + "api\\?"@,
        ]
    } else if chain == "chiliz"@ {
        seq![
            "--verify"@,
            "--etherscan-api-key"@,
            "\"verifyContract\""@,
            "--verifier-url"@,
            "https://api.routescan.io/v2/network/mainnet/evm/88888/etherscan"@,
        ]
    } else {
        seq!["--verify"@, "--etherscan-api-key"@, "$"@ + uppercase_text(chain) + "_API_KEY"@]
    }
}

/// The flags that select the verifier for `chain`.
pub fn get_verifier_flags(chain: &str) -> (args: Vec<String>)
    ensures
        texts_view(args@) == verifier_flags(chain@),
{
    let mut args: Vec<String> = Vec::new();
    assert(texts_view(args@) =~= Seq::<Seq<char>>::empty());
    push_text(&mut args, "--verify");
    push_text(&mut args, "--etherscan-api-key");
    if str_eq(chain, "form") || str_eq(chain, "lightlink") || str_eq(chain, "mode") || str_eq(
        chain,
        "morph",
    ) || str_eq(chain, "superseed") {
        push_text(&mut args, "\"verifyContract\"");
        let mut url = get_explorer_url_by_name(chain);
        push_text(&mut args, "--verifier-url");
        url.append("api\\?");
        push_string(&mut args, url);
        assert(texts_view(args@) =~= verifier_flags(chain@));
    } else if str_eq(chain, "chiliz") {
        push_text(&mut args, "\"verifyContract\"");
        push_text(&mut args, "--verifier-url");
        push_text(&mut args, "https://api.routescan.io/v2/network/mainnet/evm/88888/etherscan");
        assert(texts_view(args@) =~= verifier_flags(chain@));
    } else {
        let mut key = String::from_str("$");
        key.append(to_uppercase(chain).as_str());
        key.append("_API_KEY");
        push_string(&mut args, key);
        assert(texts_view(args@) =~= verifier_flags(chain@));
    }
    args
}

/// One constructor argument as a deployment records it.
#[derive(Clone, Debug, PartialEq, Eq)]
pub enum ConstructorArg {
    /// A string, taken to be an address.
    Text(String),
    /// An unsigned number.
    Number(u64),
    /// Anything else.
    Other,
}

/// A value that can be encoded: an address or an unsigned number.
#[derive(Clone, Copy, Debug, PartialEq, Eq)]
pub enum AbiValue {
    Address([u8; 20]),
    Uint(u64),
}

/// What parsing a text as a 20-byte hash gives: the bytes, or the sentence
/// that says why it is none.
pub uninterp spec fn h160_parse(text: Seq<char>) -> Result<Seq<u8>, Seq<char>>;

/// The `len` least significant bytes of `n`, most significant first.
pub open spec fn be_bytes(n: nat, len: nat) -> Seq<u8>
    decreases len,
{
    if len == 0 {
        Seq::empty()
    } else {
        be_bytes(n / 256, (len - 1) as nat).push((n % 256) as u8)
    }
}

/// The 32-byte word that encodes a value.
pub open spec fn abi_word(value: AbiValue) -> Seq<u8> {
    match value {
        AbiValue::Address(address) => address_word(address@),
        AbiValue::Uint(n) => be_bytes(n as nat, 32),
    }
}

/// The words of the first `count` values, one after the other.
pub open spec fn abi_words(values: Seq<AbiValue>, count: nat) -> Seq<u8>
    decreases count,
{
    if count == 0 || count > values.len() {
        Seq::empty()
    } else {
        abi_words(values, (count - 1) as nat) + abi_word(values[count - 1])
    }
}

/// The word of a constructor argument, or why it has none.
pub open spec fn arg_word(arg: ConstructorArg) -> Result<Seq<u8>, Seq<char>> {
    match arg {
        ConstructorArg::Text(text) => match h160_parse(text@) {
            Ok(address) => Ok(address_word(address)),
            Err(reason) => Err("Failed to parse address "@ + text@ + ": "@ + reason),
        },
        ConstructorArg::Number(n) => Ok(be_bytes(n as nat, 32)),
        ConstructorArg::Other => Err("Unsupported constructor argument type"@),
    }
}

/// The words of the first `count` arguments, or the error of the first
/// argument among them that has no word.
pub open spec fn args_words(args: Seq<ConstructorArg>, count: nat) -> Result<Seq<u8>, Seq<char>>
    decreases count,
{
    if count == 0 || count > args.len() {
        Ok(Seq::empty())
    } else {
        match args_words(args, (count - 1) as nat) {
            Err(reason) => Err(reason),
            Ok(words) => match arg_word(args[count - 1]) {
                Err(reason) => Err(reason),
                Ok(word) => Ok(words + word),
            },
        }
    }
}

/// The encoded constructor arguments in hexadecimal notation after `0x`, or
/// the error of the first argument that cannot be encoded.
pub open spec fn abi_encoded(args: Seq<ConstructorArg>) -> Result<Seq<char>, Seq<char>> {
    match args_words(args, args.len()) {
        Ok(words) => Ok("0x"@ + lower_hex(words)),
        Err(reason) => Err(reason),
    }
}

/// Parses through `FromStr` of `ethabi::Address`. Trusted: what comes back,
/// the bytes or the error's text, depends on the text given alone.
#[verifier::external_body]
fn parse_h160(text: &str) -> (parsed: Result<[u8; 20], String>)
    ensures
        match parsed {
            Ok(bytes) => h160_parse(text@) == Ok::<Seq<u8>, Seq<char>>(bytes@),
            Err(reason) => h160_parse(text@) == Err::<Seq<u8>, Seq<char>>(reason@),
        },
{
    match text.parse::<ethabi::Address>() {
        Ok(address) => Ok(address.0),
        Err(error) => Err(error.to_string()),
    }
}

/// Calls `ethabi::encode` on one token per value. Trusted: addresses and
/// unsigned numbers are encoded as one 32-byte word each, in order; an
/// address is padded with zero bytes on the left, a number is written most
/// significant byte first.
#[verifier::external_body]
fn encode_values(values: &Vec<AbiValue>) -> (encoded: Vec<u8>)
    ensures
        encoded@ == abi_words(values@, values@.len()),
{
    let tokens: Vec<ethabi::Token> = values.iter().map(
        |value|
            match value {
                AbiValue::Address(address) => ethabi::Token::Address((*address).into()),
                AbiValue::Uint(n) => ethabi::Token::Uint((*n).into()),
            },
    ).collect();
    ethabi::encode(&tokens)
}

/// Calls `hex::encode`. Trusted: the result is two lower-case hexadecimal
/// digits for each byte, in order.
#[verifier::external_body]
fn hex_encode(bytes: &Vec<u8>) -> (text: String)
    ensures
        text@ == lower_hex(bytes@),
{
    hex::encode(bytes)
}

/// Encodes constructor arguments for the verifier: strings as addresses,
/// unsigned numbers as numbers. The first argument that is neither, or a
/// string that is no address, fails the encoding.
pub fn abi_encode(args: &Vec<ConstructorArg>) -> (encoded: Result<String, String>)
    ensures
        match abi_encoded(args@) {
            Ok(text) => encoded.is_ok() && encoded.unwrap()@ == text,
            Err(reason) => encoded.is_err() && encoded.unwrap_err()@ == reason,
        },
{
    let mut values: Vec<AbiValue> = Vec::new();
    let mut i: usize = 0;
    while i < args.len()
        invariant
            i <= args@.len(),
            values@.len() == i,
            args_words(args@, i as nat) == Ok::<Seq<u8>, Seq<char>>(abi_words(values@, i as nat)),
        decreases args@.len() - i,
    {
        let ghost before = values@;
        let value = match &args[i] {
            ConstructorArg::Text(text) => match parse_h160(text.as_str()) {
                Ok(address) => AbiValue::Address(address),
                Err(reason) => {
                    let mut message = String::from_str("Failed to parse address ");
                    message.append(text.as_str());
                    message.append(": ");
                    message.append(reason.as_str());
                    proof {
                        lemma_error_stays(args@, (i + 1) as nat, args@.len());
                    }
                    return Err(message);
                },
            },
            ConstructorArg::Number(n) => AbiValue::Uint(*n),
            ConstructorArg::Other => {
                proof {
                    lemma_error_stays(args@, (i + 1) as nat, args@.len());
                }
                return Err(String::from_str("Unsupported constructor argument type"));
            },
        };
        values.push(value);
        proof {
            lemma_words_prefix(before, values@, i as nat);
        }
        i += 1;
    }
    let mut text = String::from_str("0x");
    text.append(hex_encode(&encode_values(&values)).as_str());
    Ok(text)
}

/// An error among the first `count` arguments is the error of any longer
/// prefix.
proof fn lemma_error_stays(args: Seq<ConstructorArg>, count: nat, more: nat)
    requires
        count <= more <= args.len(),
        args_words(args, count).is_err(),
    ensures
        args_words(args, more) == args_words(args, count),
    decreases more - count,
{
    if count < more {
        lemma_error_stays(args, count, (more - 1) as nat);
    }
}

/// The words of a prefix do not change when values are appended.
proof fn lemma_words_prefix(before: Seq<AbiValue>, after: Seq<AbiValue>, count: nat)
    requires
        count <= before.len() <= after.len(),
        forall|k: int| 0 <= k < before.len() ==> before[k] == after[k],
    ensures
        abi_words(after, count) == abi_words(before, count),
    decreases count,
{
    if count > 0 {
        lemma_words_prefix(before, after, (count - 1) as nat);
    }
}

/// What a deployment records of one contract, as far as verification needs
/// it.
#[derive(Clone, Debug, PartialEq, Eq)]
pub struct VerifyData {
    pub contract_name: Option<String>,
    pub contract_address: Option<String>,
    pub arguments: Option<Vec<ConstructorArg>>,
    pub libraries: Option<Vec<String>>,
}

/// What to do about the verification of one contract.
#[derive(Clone, Debug, PartialEq, Eq)]
pub enum VerifyCommand {
    /// The record names no contract or no address: nothing to verify.
    Skip,
    /// The constructor arguments could not be encoded.
    EncodingFailed { error: String },
    /// Run the verifier with these arguments.
    Run { args: Vec<String> },
}

/// The mathematical value of a `VerifyCommand`.
pub enum VerifyCommandView {
    Skip,
    EncodingFailed { error: Seq<char> },
    Run { args: Seq<Seq<char>> },
}

impl View for VerifyCommand {
    type V = VerifyCommandView;

    open spec fn view(&self) -> VerifyCommandView {
        match self {
            VerifyCommand::Skip => VerifyCommandView::Skip,
            VerifyCommand::EncodingFailed { error } => VerifyCommandView::EncodingFailed {
                error: error@,
            },
            VerifyCommand::Run { args } => VerifyCommandView::Run { args: texts_view(args@) },
        }
    }
}

/// The arguments that name each library that is not empty, in order, among
/// the first `count`.
pub open spec fn library_flags(libraries: Seq<String>, count: nat) -> Seq<Seq<char>>
    decreases count,
{
    if count == 0 || count > libraries.len() {
        Seq::empty()
    } else if libraries[count - 1]@.len() == 0 {
        library_flags(libraries, (count - 1) as nat)
    } else {
        library_flags(libraries, (count - 1) as nat).push("--libraries"@).push(
            libraries[count - 1]@,
        )
    }
}

/// The encoded constructor arguments of a record: none where it has no
/// arguments, or an empty list of them.
pub open spec fn constructor_flags(data: VerifyData) -> Result<Seq<Seq<char>>, Seq<char>> {
    match data.arguments {
        Some(arguments) => if arguments@.len() == 0 {
            Ok(Seq::empty())
        } else {
            match abi_encoded(arguments@) {
                Ok(text) => Ok(seq!["--constructor-args"@, text]),
                Err(reason) => Err(reason),
            }
        },
        None => Ok(Seq::empty()),
    }
}

/// What to do about one record of a deployment on `chain`: the verifier's
/// arguments are the sub-command, the address, the contract's source and
/// name, the encoded constructor arguments if there are any, the libraries,
/// and the flags that select the verifier.
pub open spec fn verify_plan(chain: Seq<char>, data: VerifyData) -> VerifyCommandView {
    if data.contract_name.is_none() || data.contract_address.is_none() {
        VerifyCommandView::Skip
    } else {
        let name = data.contract_name.unwrap()@;
        match constructor_flags(data) {
            Err(reason) => VerifyCommandView::EncodingFailed { error: reason },
            Ok(flags) => VerifyCommandView::Run {
                args: seq![
                    "verify-contract"@,
                    data.contract_address.unwrap()@,
                    "src/"@ + name + ".sol:"@ + name,
                ] + flags + (match data.libraries {
                    Some(libraries) => library_flags(libraries@, libraries@.len()),
                    None => Seq::empty(),
                }) + verifier_flags(chain),
            },
        }
    }
}

/// Appends all of `more` to `args`.
fn extend_texts(args: &mut Vec<String>, more: Vec<String>)
    ensures
        texts_view(final(args)@) == texts_view(old(args)@) + texts_view(more@),
{
    let mut more = more;
    let ghost added = more@;
    args.append(&mut more);
    assert(texts_view(args@) =~= texts_view(old(args)@) + texts_view(added));
}

/// Decides what to do about the verification of one contract deployed on
/// `chain`.
pub fn verify_command(chain: &str, data: &VerifyData) -> (command: VerifyCommand)
    ensures
        command@ == verify_plan(chain@, *data),
{
    let name = match &data.contract_name {
        Some(name) => name,
        None => {
            return VerifyCommand::Skip;
        },
    };
    let address = match &data.contract_address {
        Some(address) => address,
        None => {
            return VerifyCommand::Skip;
        },
    };
    let mut args: Vec<String> = Vec::new();
    assert(texts_view(args@) =~= Seq::<Seq<char>>::empty());
    push_text(&mut args, "verify-contract");
    push_text(&mut args, address.as_str());
    let mut source = String::from_str("src/");
    source.append(name.as_str());
    source.append(".sol:");
    source.append(name.as_str());
    push_string(&mut args, source);
    let ghost head = texts_view(args@);
    assert(head =~= seq!["verify-contract"@, address@, "src/"@ + name@ + ".sol:"@ + name@]);
    match &data.arguments {
        Some(arguments) => {
            if arguments.len() > 0 {
                match abi_encode(arguments) {
                    Ok(encoded) => {
                        push_text(&mut args, "--constructor-args");
                        push_string(&mut args, encoded);
                    },
                    Err(error) => {
                        return VerifyCommand::EncodingFailed { error };
                    },
                }
            }
        },
        None => {},
    }
    let ghost flags = constructor_flags(*data)->Ok_0;
    assert(texts_view(args@) =~= head + flags);
    match &data.libraries {
        Some(libraries) => {
            let mut i: usize = 0;
            assert(texts_view(args@) =~= head + flags + library_flags(libraries@, 0));
            while i < libraries.len()
                invariant
                    i <= libraries@.len(),
                    texts_view(args@) == head + flags + library_flags(libraries@, i as nat),
                decreases libraries@.len() - i,
            {
                if !libraries[i].as_str().is_empty() {
                    push_text(&mut args, "--libraries");
                    push_text(&mut args, libraries[i].as_str());
                }
                assert(texts_view(args@) =~= head + flags + library_flags(
                    libraries@,
                    (i + 1) as nat,
                ));
                i += 1;
            }
        },
        None => {
            assert(texts_view(args@) =~= head + flags + Seq::<Seq<char>>::empty());
        },
    }
    extend_texts(&mut args, get_verifier_flags(chain));
    VerifyCommand::Run { args }
}

/// The values of a sequence of commands, in order.
pub open spec fn commands_view(commands: Seq<VerifyCommand>) -> Seq<VerifyCommandView> {
    commands.map_values(|command: VerifyCommand| command@)
}

/// Decides, record by record and in their order, what to do about the
/// verification of every contract; each record comes with its chain. A
/// record that is skipped or fails does not stop the others.
pub fn verify_contracts(verify_data: &Vec<(String, VerifyData)>) -> (commands: Vec<VerifyCommand>)
    ensures
        commands_view(commands@) == Seq::new(
            verify_data@.len(),
            |i: int| verify_plan(verify_data@[i].0@, verify_data@[i].1),
        ),
{
    let mut commands: Vec<VerifyCommand> = Vec::new();
    let mut i: usize = 0;
    while i < verify_data.len()
        invariant
            i <= verify_data@.len(),
            commands_view(commands@) == Seq::new(
                i as nat,
                |k: int| verify_plan(verify_data@[k].0@, verify_data@[k].1),
            ),
        decreases verify_data@.len() - i,
    {
        let command = verify_command(verify_data[i].0.as_str(), &verify_data[i].1);
        let ghost before = commands@;
        commands.push(command);
        assert(commands_view(commands@) =~= commands_view(before).push(command@));
        assert(commands_view(commands@) =~= Seq::new(
            (i + 1) as nat,
            |k: int| verify_plan(verify_data@[k].0@, verify_data@[k].1),
        ));
        i += 1;
    }
    commands
}

/// What a deployment records of one transaction.
#[derive(Clone, Debug, PartialEq, Eq)]
pub struct TransactionEntry {
    pub contract_name: Option<String>,
    pub contract_address: Option<String>,
    pub arguments: Option<Vec<ConstructorArg>>,
}

/// The constructor arguments that are kept for verification: an empty list
/// counts as none.
pub open spec fn kept_arguments(arguments: Option<Vec<ConstructorArg>>) -> Option<
    Vec<ConstructorArg>,
> {
    match arguments {
        Some(list) => if list@.len() > 0 {
            Some(list)
        } else {
            None
        },
        None => None,
    }
}

/// Whether `copy` holds the same libraries as `libraries`.
pub open spec fn same_libraries(copy: Option<Vec<String>>, libraries: Option<Vec<String>>) -> bool {
    match (copy, libraries) {
        (Some(a), Some(b)) => texts_view(a@) == texts_view(b@),
        (None, None) => true,
        _ => false,
    }
}

/// Copies a list of strings.
fn clone_texts(texts: &Vec<String>) -> (copy: Vec<String>)
    ensures
        texts_view(copy@) == texts_view(texts@),
{
    let mut copy: Vec<String> = Vec::new();
    let mut i: usize = 0;
    while i < texts.len()
        invariant
            i <= texts@.len(),
            copy@.len() == i,
            forall|j: int| 0 <= j < i ==> copy@[j]@ == texts@[j]@,
        decreases texts@.len() - i,
    {
        copy.push(texts[i].clone());
        i += 1;
    }
    assert(texts_view(copy@) =~= texts_view(texts@));
    copy
}

/// Adds the transactions of a deployment on `chain` to the contracts to
/// verify, in their order; each gets the chain's name and the deployment's
/// libraries. What was gathered before stays as it is.
pub fn process_chain(
    chain: &str,
    libraries: &Option<Vec<String>>,
    transactions: Vec<TransactionEntry>,
    verify_data: &mut Vec<(String, VerifyData)>,
)
    ensures
        final(verify_data)@.len() == old(verify_data)@.len() + transactions@.len(),
        forall|k: int|
            0 <= k < old(verify_data)@.len() ==> final(verify_data)@[k] == old(verify_data)@[k],
        forall|k: int|
            0 <= k < transactions@.len() ==> {
                let added = #[trigger] final(verify_data)@[old(verify_data)@.len() + k];
                &&& added.0@ == chain@
                &&& added.1.contract_name == transactions@[k].contract_name
                &&& added.1.contract_address == transactions@[k].contract_address
                &&& added.1.arguments == kept_arguments(transactions@[k].arguments)
                &&& same_libraries(added.1.libraries, *libraries)
            },
{
    let mut rest = transactions;
    let ghost base = verify_data@.len();
    let mut done: usize = 0;
    let total = rest.len();
    while rest.len() > 0
        invariant
            done + rest@.len() == total,
            total == transactions@.len(),
            base == old(verify_data)@.len(),
            verify_data@.len() == base + done,
            forall|k: int| 0 <= k < rest@.len() ==> rest@[k] == transactions@[done + k],
            forall|k: int| 0 <= k < base ==> verify_data@[k] == old(verify_data)@[k],
            forall|k: int|
                0 <= k < done ==> {
                    let added = #[trigger] verify_data@[base + k];
                    &&& added.0@ == chain@
                    &&& added.1.contract_name == transactions@[k].contract_name
                    &&& added.1.contract_address == transactions@[k].contract_address
                    &&& added.1.arguments == kept_arguments(transactions@[k].arguments)
                    &&& same_libraries(added.1.libraries, *libraries)
                },
        decreases rest@.len(),
    {
        let entry = rest.remove(0);
        assert(entry == transactions@[done as int]);
        let arguments = match entry.arguments {
            Some(list) => if list.len() > 0 {
                Some(list)
            } else {
                None
            },
            None => None,
        };
        let copy = match libraries {
            Some(list) => Some(clone_texts(list)),
            None => None,
        };
        let ghost before = verify_data@;
        verify_data.push(
            (
                String::from_str(chain),
                VerifyData {
                    contract_name: entry.contract_name,
                    contract_address: entry.contract_address,
                    arguments,
                    libraries: copy,
                },
            ),
        );
        assert forall|k: int| 0 <= k < done + 1 implies {
            let added = #[trigger] verify_data@[base + k];
            &&& added.0@ == chain@
            &&& added.1.contract_name == transactions@[k].contract_name
            &&& added.1.contract_address == transactions@[k].contract_address
            &&& added.1.arguments == kept_arguments(transactions@[k].arguments)
            &&& same_libraries(added.1.libraries, *libraries)
        } by {
            if k < done {
                assert(verify_data@[base + k] == before[base + k]);
            }
        }
        done += 1;
    }
}

} // verus!
