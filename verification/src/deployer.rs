//! The deployment tool's own decisions: its command line, the chains it
//! runs on, and the command it runs for each.

use crate::text::{push_string, push_text, starts_with, str_eq, texts_view};
use vstd::prelude::*;
use vstd::string::StringExecFns;

verus! {

/// What the command line asks for.
#[derive(Clone, Debug, PartialEq, Eq)]
pub struct Options {
    pub broadcast_deployment: bool,
    pub cp_broadcasted_file: bool,
    pub gas_price: String,
    pub log_broadcasts: bool,
    pub on_all_chains: bool,
    pub provided_chains: Vec<String>,
    pub sender: String,
    pub script_name: String,
    pub show_cli: bool,
    pub verify_deployment: bool,
}

/// The mathematical value of `Options`.
pub struct OptionsView {
    pub broadcast_deployment: bool,
    pub cp_broadcasted_file: bool,
    pub gas_price: Seq<char>,
    pub log_broadcasts: bool,
    pub on_all_chains: bool,
    pub provided_chains: Seq<Seq<char>>,
    pub sender: Seq<char>,
    pub script_name: Seq<char>,
    pub show_cli: bool,
    pub verify_deployment: bool,
}

impl View for Options {
    type V = OptionsView;

    open spec fn view(&self) -> OptionsView {
        OptionsView {
            broadcast_deployment: self.broadcast_deployment,
            cp_broadcasted_file: self.cp_broadcasted_file,
            gas_price: self.gas_price@,
            log_broadcasts: self.log_broadcasts,
            on_all_chains: self.on_all_chains,
            provided_chains: texts_view(self.provided_chains@),
            sender: self.sender@,
            script_name: self.script_name@,
            show_cli: self.show_cli,
            verify_deployment: self.verify_deployment,
        }
    }
}

/// How reading the command line ended.
#[derive(Clone, Debug, PartialEq, Eq)]
pub enum ParsedArgs {
    /// `--help` was given: show the help and do nothing else.
    Help,
    /// The flag that stands last needs a value.
    MissingValue { flag: String },
    /// The options, and the arguments that were not understood, in order.
    Run { options: Options, unknown: Vec<String> },
}

/// The mathematical value of `ParsedArgs`.
pub enum ParsedArgsView {
    Help,
    MissingValue { flag: Seq<char> },
    Run { options: OptionsView, unknown: Seq<Seq<char>> },
}

impl View for ParsedArgs {
    type V = ParsedArgsView;

    open spec fn view(&self) -> ParsedArgsView {
        match self {
            ParsedArgs::Help => ParsedArgsView::Help,
            ParsedArgs::MissingValue { flag } => ParsedArgsView::MissingValue { flag: flag@ },
            ParsedArgs::Run { options, unknown } => ParsedArgsView::Run {
                options: options@,
                unknown: texts_view(unknown@),
            },
        }
    }
}

/// The options before any argument is read.
pub open spec fn no_options() -> OptionsView {
    OptionsView {
        broadcast_deployment: false,
        cp_broadcasted_file: false,
        gas_price: Seq::empty(),
        log_broadcasts: false,
        on_all_chains: false,
        provided_chains: Seq::empty(),
        sender: Seq::empty(),
        script_name: Seq::empty(),
        show_cli: false,
        verify_deployment: false,
    }
}

/// Reads the arguments from position `i` on, after `options` and `unknown`
/// were gathered from those before. `--help` ends the reading at once.
/// `--gas-price`, `--script` and `--sender` take the next argument as their
/// value. An argument that is no flag names a chain, unless `--all` stood
/// before it; anything else is not understood.
pub open spec fn parse_from(
    args: Seq<Seq<char>>,
    i: nat,
    options: OptionsView,
    unknown: Seq<Seq<char>>,
) -> ParsedArgsView
    decreases args.len() - i,
{
    if i >= args.len() {
        ParsedArgsView::Run { options, unknown }
    } else {
        let arg = args[i as int];
        if arg == "--help"@ {
            ParsedArgsView::Help
        } else if arg == "--all"@ {
            parse_from(args, i + 1, OptionsView { on_all_chains: true, ..options }, unknown)
        } else if arg == "--broadcast"@ {
            parse_from(args, i + 1, OptionsView { broadcast_deployment: true, ..options }, unknown)
        } else if arg == "--cp-bf"@ {
            parse_from(args, i + 1, OptionsView { cp_broadcasted_file: true, ..options }, unknown)
        } else if arg == "--gas-price"@ {
            if i + 1 < args.len() {
                parse_from(
                    args,
                    i + 2,
                    OptionsView { gas_price: args[i as int + 1], ..options },
                    unknown,
                )
            } else {
                ParsedArgsView::MissingValue { flag: arg }
            }
        } else if arg == "--log"@ {
            parse_from(args, i + 1, OptionsView { log_broadcasts: true, ..options }, unknown)
        } else if arg == "--script"@ {
            if i + 1 < args.len() {
                parse_from(
                    args,
                    i + 2,
                    OptionsView { script_name: args[i as int + 1], ..options },
                    unknown,
                )
            } else {
                ParsedArgsView::MissingValue { flag: arg }
            }
        } else if arg == "--sender"@ {
            if i + 1 < args.len() {
                parse_from(args, i + 2, OptionsView { sender: args[i as int + 1], ..options }, unknown)
            } else {
                ParsedArgsView::MissingValue { flag: arg }
            }
        } else if arg == "--show"@ {
            parse_from(args, i + 1, OptionsView { show_cli: true, ..options }, unknown)
        } else if arg == "--verify"@ {
            parse_from(args, i + 1, OptionsView { verify_deployment: true, ..options }, unknown)
        } else if !"--"@.is_prefix_of(arg) && !options.on_all_chains {
            parse_from(
                args,
                i + 1,
                OptionsView { provided_chains: options.provided_chains.push(arg), ..options },
                unknown,
            )
        } else {
            parse_from(args, i + 1, options, unknown.push(arg))
        }
    }
}

/// Reads the command line, the program's own name left out.
pub fn parse_args(args: &Vec<String>) -> (parsed: ParsedArgs)
    ensures
        parsed@ == parse_from(texts_view(args@), 0, no_options(), Seq::empty()),
{
    let mut options = Options {
        broadcast_deployment: false,
        cp_broadcasted_file: false,
        gas_price: String::new(),
        log_broadcasts: false,
        on_all_chains: false,
        provided_chains: Vec::new(),
        sender: String::new(),
        script_name: String::new(),
        show_cli: false,
        verify_deployment: false,
    };
    let mut unknown: Vec<String> = Vec::new();
    assert(options@ == no_options()) by {
        assert(texts_view(options.provided_chains@) =~= Seq::<Seq<char>>::empty());
    }
    assert(texts_view(unknown@) =~= Seq::<Seq<char>>::empty());
    let ghost all = texts_view(args@);
    let mut i: usize = 0;
    while i < args.len()
        invariant
            i <= args@.len(),
            all == texts_view(args@),
            parse_from(all, 0, no_options(), Seq::empty()) == parse_from(
                all,
                i as nat,
                options@,
                texts_view(unknown@),
            ),
        decreases args@.len() - i,
    {
        let arg = args[i].as_str();
        assert(all[i as int] == arg@);
        if str_eq(arg, "--help") {
            return ParsedArgs::Help;
        } else if str_eq(arg, "--all") {
            options.on_all_chains = true;
            i += 1;
        } else if str_eq(arg, "--broadcast") {
            options.broadcast_deployment = true;
            i += 1;
        } else if str_eq(arg, "--cp-bf") {
            options.cp_broadcasted_file = true;
            i += 1;
        } else if str_eq(arg, "--gas-price") {
            if i + 1 < args.len() {
                assert(all[i + 1] == args@[i + 1]@);
                options.gas_price = args[i + 1].clone();
                i += 2;
            } else {
                return ParsedArgs::MissingValue { flag: args[i].clone() };
            }
        } else if str_eq(arg, "--log") {
            options.log_broadcasts = true;
            i += 1;
        } else if str_eq(arg, "--script") {
            if i + 1 < args.len() {
                assert(all[i + 1] == args@[i + 1]@);
                options.script_name = args[i + 1].clone();
                i += 2;
            } else {
                return ParsedArgs::MissingValue { flag: args[i].clone() };
            }
        } else if str_eq(arg, "--sender") {
            if i + 1 < args.len() {
                assert(all[i + 1] == args@[i + 1]@);
                options.sender = args[i + 1].clone();
                i += 2;
            } else {
                return ParsedArgs::MissingValue { flag: args[i].clone() };
            }
        } else if str_eq(arg, "--show") {
            options.show_cli = true;
            i += 1;
        } else if str_eq(arg, "--verify") {
            options.verify_deployment = true;
            i += 1;
        } else if !starts_with(arg, "--") && !options.on_all_chains {
            push_text(&mut options.provided_chains, arg);
            i += 1;
        } else {
            push_text(&mut unknown, arg);
            i += 1;
        }
    }
    ParsedArgs::Run { options, unknown }
}

/// Whether `name` is one of `names`.
pub open spec fn listed(names: Seq<Seq<char>>, name: Seq<char>) -> bool {
    exists|k: int| 0 <= k < names.len() && names[k] == name
}

/// Whether `name` is one of `names`.
pub fn is_listed(names: &Vec<String>, name: &str) -> (found: bool)
    ensures
        found == listed(texts_view(names@), name@),
{
    let mut k: usize = 0;
    while k < names.len()
        invariant
            k <= names@.len(),
            forall|j: int| 0 <= j < k ==> texts_view(names@)[j] != name@,
        decreases names@.len() - k,
    {
        assert(texts_view(names@)[k as int] == names@[k as int]@);
        if str_eq(names[k].as_str(), name) {
            return true;
        }
        k += 1;
    }
    false
}

/// Those of the first `count` names that are among `among`, in their order;
/// with `keep` false, those that are not.
pub open spec fn sieved(
    names: Seq<Seq<char>>,
    among: Seq<Seq<char>>,
    keep: bool,
    count: nat,
) -> Seq<Seq<char>>
    decreases count,
{
    if count == 0 || count > names.len() {
        Seq::empty()
    } else if listed(among, names[count - 1]) == keep {
        sieved(names, among, keep, (count - 1) as nat).push(names[count - 1])
    } else {
        sieved(names, among, keep, (count - 1) as nat)
    }
}

/// The names of the configuration's endpoints that are chains to deploy to:
/// all but `localhost`, in their order.
pub open spec fn deployable(endpoints: Seq<Seq<char>>) -> Seq<Seq<char>> {
    sieved(endpoints, seq!["localhost"@], false, endpoints.len())
}

/// The chains that the configuration offers: the names of its endpoints
/// without `localhost`.
pub fn get_all_chains(endpoints: &Vec<String>) -> (chains: Vec<String>)
    ensures
        texts_view(chains@) == deployable(texts_view(endpoints@)),
{
    let mut chains: Vec<String> = Vec::new();
    let ghost local = seq!["localhost"@];
    assert(texts_view(chains@) =~= sieved(texts_view(endpoints@), local, false, 0));
    let mut i: usize = 0;
    while i < endpoints.len()
        invariant
            i <= endpoints@.len(),
            local == seq!["localhost"@],
            texts_view(chains@) == sieved(texts_view(endpoints@), local, false, i as nat),
        decreases endpoints@.len() - i,
    {
        assert(texts_view(endpoints@)[i as int] == endpoints@[i as int]@);
        let is_local = str_eq(endpoints[i].as_str(), "localhost");
        proof {
            let name = endpoints@[i as int]@;
            if is_local {
                assert(local[0] == name);
            }
            assert(listed(local, name) == is_local);
        }
        if !is_local {
            push_text(&mut chains, endpoints[i].as_str());
        }
        i += 1;
    }
    chains
}

/// The chains to deploy to. With `--all`, every configured chain. Else the
/// chains named on the command line that are configured, in their order, and
/// `sepolia` where none is left.
pub open spec fn selected_chains(
    provided: Seq<Seq<char>>,
    configured: Seq<Seq<char>>,
    on_all_chains: bool,
) -> Seq<Seq<char>> {
    if on_all_chains {
        configured
    } else if sieved(provided, configured, true, provided.len()).len() == 0 {
        seq!["sepolia"@]
    } else {
        sieved(provided, configured, true, provided.len())
    }
}

/// Chooses the chains to deploy to, and lists the chains that were named on
/// the command line and are not configured.
pub fn select_chains(provided: &Vec<String>, configured: Vec<String>, on_all_chains: bool) -> (chosen: (
    Vec<String>,
    Vec<String>,
))
    ensures
        texts_view(chosen.0@) == selected_chains(
            texts_view(provided@),
            texts_view(configured@),
            on_all_chains,
        ),
        texts_view(chosen.1@) == if on_all_chains {
            Seq::empty()
        } else {
            sieved(texts_view(provided@), texts_view(configured@), false, provided@.len())
        },
{
    let mut rejected: Vec<String> = Vec::new();
    assert(texts_view(rejected@) =~= Seq::<Seq<char>>::empty());
    if on_all_chains {
        return (configured, rejected);
    }
    let mut kept: Vec<String> = Vec::new();
    assert(texts_view(kept@) =~= Seq::<Seq<char>>::empty());
    let mut i: usize = 0;
    while i < provided.len()
        invariant
            i <= provided@.len(),
            texts_view(kept@) == sieved(
                texts_view(provided@),
                texts_view(configured@),
                true,
                i as nat,
            ),
            texts_view(rejected@) == sieved(
                texts_view(provided@),
                texts_view(configured@),
                false,
                i as nat,
            ),
        decreases provided@.len() - i,
    {
        assert(texts_view(provided@)[i as int] == provided@[i as int]@);
        if is_listed(&configured, provided[i].as_str()) {
            push_text(&mut kept, provided[i].as_str());
        } else {
            push_text(&mut rejected, provided[i].as_str());
        }
        i += 1;
    }
    if kept.len() == 0 {
        push_text(&mut kept, "sepolia");
        assert(texts_view(kept@) =~= seq!["sepolia"@]);
    }
    (kept, rejected)
}

/// Chains that lack support for the newer transaction format.
pub open spec fn needs_legacy(chain: Seq<char>) -> bool {
    chain == "chiliz"@ || chain == "form"@ || chain == "linea"@
}

/// The arguments of the deployment command for `chain`: the script, the
/// chain as its endpoint, `--broadcast` where asked for, the gas price where
/// one is given, the sender (the default one where none is given), and
/// `--legacy` for the chains that need it.
pub open spec fn deployment_args(
    chain: Seq<char>,
    options: OptionsView,
    default_sender: Seq<char>,
) -> Seq<Seq<char>> {
    seq!["script"@, "script/"@ + options.script_name, "--rpc-url"@, chain] + (if options.broadcast_deployment {
        seq!["--broadcast"@]
    } else {
        Seq::empty()
    }) + (if options.gas_price.len() > 0 {
        seq!["--gas-price"@, options.gas_price]
    } else {
        Seq::empty()
    }) + seq![
        "--sender"@,
        if options.sender.len() == 0 {
            default_sender
        } else {
            options.sender
        },
    ] + (if needs_legacy(chain) {
        seq!["--legacy"@]
    } else {
        Seq::empty()
    })
}

/// Builds the arguments of the deployment command for `chain`.
pub fn deployment_command(chain: &str, options: &Options, default_sender: &str) -> (args: Vec<String>)
    ensures
        texts_view(args@) == deployment_args(chain@, options@, default_sender@),
{
    let mut args: Vec<String> = Vec::new();
    assert(texts_view(args@) =~= Seq::<Seq<char>>::empty());
    push_text(&mut args, "script");
    let mut script = String::from_str("script/");
    script.append(options.script_name.as_str());
    push_string(&mut args, script);
    push_text(&mut args, "--rpc-url");
    push_text(&mut args, chain);
    if options.broadcast_deployment {
        push_text(&mut args, "--broadcast");
    }
    if !options.gas_price.as_str().is_empty() {
        push_text(&mut args, "--gas-price");
        push_text(&mut args, options.gas_price.as_str());
    }
    push_text(&mut args, "--sender");
    if options.sender.as_str().is_empty() {
        push_text(&mut args, default_sender);
    } else {
        push_text(&mut args, options.sender.as_str());
    }
    if str_eq(chain, "chiliz") || str_eq(chain, "form") || str_eq(chain, "linea") {
        push_text(&mut args, "--legacy");
    }
    assert(texts_view(args@) =~= deployment_args(chain@, options@, default_sender@));
    args
}

} // verus!
