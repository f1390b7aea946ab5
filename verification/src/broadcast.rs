//! The record that the deployment tool leaves of a run, and what is made of
//! it: where it lies, where it is copied to, and the reports written from it.

use crate::chain_data::{chain_row, get_explorer_url_with_address, get_name, row_with_id};
use crate::text::{
    ascii_uppercase, contains_text, decimal_digits, hex_number, is_lowercase, is_lowercase_char,
    is_uppercase, is_uppercase_char, lines_of, parse_hex_u64, parts_of, push_char, starts_with,
    str_contains, text_lines, text_parts, text_words, texts_view, to_ascii_uppercase, trim,
    trim_start_matches, trimmed_text, u64_to_decimal, without_leading, words_of,
};
use vstd::prelude::*;
use vstd::string::{StrSliceExecFns, StringExecFns};

verus! {

/// A run of a deployment script on one chain.
#[derive(Clone, Debug, PartialEq, Eq)]
pub struct Broadcast {
    file_path: String,
    chain_id: String,
    project: String,
    version: String,
}

/// The mathematical value of a `Broadcast`.
pub struct BroadcastView {
    pub file_path: Seq<char>,
    pub chain_id: Seq<char>,
    pub project: Seq<char>,
    pub version: Seq<char>,
}

impl View for Broadcast {
    type V = BroadcastView;

    closed spec fn view(&self) -> BroadcastView {
        BroadcastView {
            file_path: self.file_path@,
            chain_id: self.chain_id@,
            project: self.project@,
            version: self.version@,
        }
    }
}

/// Whether a line, white space at its ends aside, starts with `Chain `.
pub open spec fn names_chain(line: Seq<char>) -> bool {
    "Chain "@.is_prefix_of(trimmed_text(line))
}

/// The first line at or after `from` that names the chain.
pub open spec fn chain_line(lines: Seq<Seq<char>>, from: nat) -> Option<Seq<char>>
    decreases lines.len() - from,
{
    if from >= lines.len() {
        None
    } else if names_chain(lines[from as int]) {
        Some(lines[from as int])
    } else {
        chain_line(lines, from + 1)
    }
}

/// The chain id that the tool's output reports: the second word of the first
/// line that names the chain; empty where there is no such line or word.
pub open spec fn reported_chain_id(output: Seq<char>) -> Seq<char> {
    match chain_line(text_lines(output), 0) {
        Some(line) => if text_words(line).len() >= 2 {
            text_words(line)[1]
        } else {
            Seq::empty()
        },
        None => Seq::empty(),
    }
}

/// The project that a script deploys, by what its name holds.
pub open spec fn project_of(script_name: Seq<char>) -> Option<Seq<char>> {
    if contains_text(script_name, "Protocol"@) || contains_text(script_name, "Lockup"@) {
        Some("lockup"@)
    } else if contains_text(script_name, "Flow"@) {
        Some("flow"@)
    } else if contains_text(script_name, "Merkle"@) || contains_text(script_name, "Factories"@) {
        Some("airdrops"@)
    } else {
        None
    }
}

/// Where the tool writes the record of a run: under the script's name and
/// the chain id, in `dry-run` unless the run was broadcast.
pub open spec fn broadcast_path(script_name: Seq<char>, chain_id: Seq<char>, broadcast: bool) -> Seq<
    char,
> {
    if broadcast {
        "broadcast/"@ + script_name + "/"@ + chain_id + "/run-latest.json"@
    } else {
        "broadcast/"@ + script_name + "/"@ + chain_id + "/dry-run/run-latest.json"@
    }
}

/// Where a copy of the record goes.
pub open spec fn copy_path(project: Seq<char>, version: Seq<char>, chain: Seq<char>) -> Seq<char> {
    "../sdk/"@ + project + "/v"@ + version + "/broadcasts/"@ + chain + ".json"@
}

/// The chain id that the tool's output reports.
pub fn extract_chain_id(output_str: &str) -> (chain_id: String)
    ensures
        chain_id@ == reported_chain_id(output_str@),
{
    let lines = lines_of(output_str);
    let mut i: usize = 0;
    while i < lines.len()
        invariant
            i <= lines@.len(),
            texts_view(lines@) == text_lines(output_str@),
            chain_line(text_lines(output_str@), 0) == chain_line(
                text_lines(output_str@),
                i as nat,
            ),
        decreases lines@.len() - i,
    {
        assert(texts_view(lines@)[i as int] == lines@[i as int]@);
        if starts_with(trim(lines[i].as_str()), "Chain ") {
            let mut words = words_of(lines[i].as_str());
            if words.len() >= 2 {
                assert(texts_view(words@)[1] == words@[1]@);
                return words.swap_remove(1);
            } else {
                return String::new();
            }
        }
        i += 1;
    }
    String::new()
}

/// The path of the record of a run.
pub fn broadcast_file_path(script_name: &str, chain_id: &str, is_broadcast_deployment: bool) -> (path:
    String)
    ensures
        path@ == broadcast_path(script_name@, chain_id@, is_broadcast_deployment),
{
    let mut path = String::from_str("broadcast/");
    path.append(script_name);
    path.append("/");
    path.append(chain_id);
    if is_broadcast_deployment {
        path.append("/run-latest.json");
    } else {
        path.append("/dry-run/run-latest.json");
    }
    path
}

impl Broadcast {
    /// The run of `script_name` whose output was `output_str`, for the
    /// package version given. None where the script's name tells no project.
    pub fn new(
        output_str: &str,
        script_name: &str,
        is_broadcast_deployment: bool,
        version: String,
    ) -> (made: Option<Self>)
        ensures
            match project_of(script_name@) {
                Some(project) => made.is_some() && made.unwrap()@ == (BroadcastView {
                    file_path: broadcast_path(
                        script_name@,
                        reported_chain_id(output_str@),
                        is_broadcast_deployment,
                    ),
                    chain_id: reported_chain_id(output_str@),
                    project,
                    version: version@,
                }),
                None => made.is_none(),
            },
    {
        let chain_id = extract_chain_id(output_str);
        let project = if str_contains(script_name, "Protocol") || str_contains(
            script_name,
            "Lockup",
        ) {
            String::from_str("lockup")
        } else if str_contains(script_name, "Flow") {
            String::from_str("flow")
        } else if str_contains(script_name, "Merkle") || str_contains(script_name, "Factories") {
            String::from_str("airdrops")
        } else {
            return None;
        };
        let file_path = broadcast_file_path(script_name, chain_id.as_str(), is_broadcast_deployment);
        Some(Broadcast { file_path, chain_id, project, version })
    }

    /// From where to where the record is copied for `chain`. The directory
    /// of the destination is created first where it is missing.
    pub fn copy_broadcast_file(&self, chain: &str) -> (paths: (String, String))
        ensures
            paths.0@ == self@.file_path,
            paths.1@ == copy_path(self@.project, self@.version, chain@),
    {
        let mut dest_path = String::from_str("../sdk/");
        dest_path.append(self.project.as_str());
        dest_path.append("/v");
        dest_path.append(self.version.as_str());
        dest_path.append("/broadcasts/");
        dest_path.append(chain);
        dest_path.append(".json");
        (self.file_path.clone(), dest_path)
    }

    /// The path of the record.
    pub fn file_path(&self) -> (path: &String)
        ensures
            path@ == self@.file_path,
    {
        &self.file_path
    }

    /// The chain id that the run reported.
    pub fn chain_id(&self) -> (chain_id: &String)
        ensures
            chain_id@ == self@.chain_id,
    {
        &self.chain_id
    }

    /// The project that the script deploys.
    pub fn project(&self) -> (project: &String)
        ensures
            project@ == self@.project,
    {
        &self.project
    }

    /// The package version of the deployment.
    pub fn version(&self) -> (version: &String)
        ensures
            version@ == self@.version,
    {
        &self.version
    }
}

/// What a script returned of one contract.
#[derive(Clone, Debug, PartialEq, Eq)]
pub struct ReturnedContract {
    pub internal_type: Option<String>,
    pub value: Option<String>,
}

/// The name and the address of a returned contract: the last word of its
/// type, and its value. None where either is missing.
pub open spec fn returned_entry(returned: ReturnedContract) -> Option<(Seq<char>, Seq<char>)> {
    match (returned.internal_type, returned.value) {
        (Some(internal_type), Some(value)) => if text_words(internal_type@).len() > 0 {
            Some((text_words(internal_type@).last(), value@))
        } else {
            None
        },
        _ => None,
    }
}

/// The name and the address of a linked library, written as
/// `path:name:address`. None where the text has fewer than three parts.
pub open spec fn library_entry(library: Seq<char>) -> Option<(Seq<char>, Seq<char>)> {
    let parts = text_parts(library, ':');
    if parts.len() >= 3 {
        Some((parts[1], parts[2]))
    } else {
        None
    }
}

/// The entries of the first `count` returned contracts, in order.
pub open spec fn returned_entries(returned: Seq<ReturnedContract>, count: nat) -> Seq<
    (Seq<char>, Seq<char>),
>
    decreases count,
{
    if count == 0 || count > returned.len() {
        Seq::empty()
    } else {
        match returned_entry(returned[count - 1]) {
            Some(entry) => returned_entries(returned, (count - 1) as nat).push(entry),
            None => returned_entries(returned, (count - 1) as nat),
        }
    }
}

/// The entries of the first `count` libraries, in order.
pub open spec fn library_entries(libraries: Seq<String>, count: nat) -> Seq<(Seq<char>, Seq<char>)>
    decreases count,
{
    if count == 0 || count > libraries.len() {
        Seq::empty()
    } else {
        match library_entry(libraries[count - 1]@) {
            Some(entry) => library_entries(libraries, (count - 1) as nat).push(entry),
            None => library_entries(libraries, (count - 1) as nat),
        }
    }
}

/// Every contract of a deployment by name and address: the returned
/// contracts first, then the libraries.
pub open spec fn contract_entries(returned: Seq<ReturnedContract>, libraries: Seq<String>) -> Seq<
    (Seq<char>, Seq<char>),
> {
    returned_entries(returned, returned.len()) + library_entries(libraries, libraries.len())
}

/// The texts of a sequence of pairs of strings.
pub open spec fn pairs_view(pairs: Seq<(String, String)>) -> Seq<(Seq<char>, Seq<char>)> {
    pairs.map_values(|pair: (String, String)| (pair.0@, pair.1@))
}

/// Lists every contract of a deployment by name and address.
pub fn list_contracts(returned: &Vec<ReturnedContract>, libraries: &Vec<String>) -> (entries: Vec<
    (String, String),
>)
    ensures
        pairs_view(entries@) == contract_entries(returned@, libraries@),
{
    let mut entries: Vec<(String, String)> = Vec::new();
    assert(pairs_view(entries@) =~= returned_entries(returned@, 0));
    let mut i: usize = 0;
    while i < returned.len()
        invariant
            i <= returned@.len(),
            pairs_view(entries@) == returned_entries(returned@, i as nat),
        decreases returned@.len() - i,
    {
        let ghost before = entries@;
        match (&returned[i].internal_type, &returned[i].value) {
            (Some(internal_type), Some(value)) => {
                let mut words = words_of(internal_type.as_str());
                if words.len() > 0 {
                    assert(texts_view(words@).last() == words@[words@.len() - 1]@);
                    let name = words.pop().unwrap();
                    let entry = (name, value.clone());
                    entries.push(entry);
                    assert(pairs_view(entries@) =~= pairs_view(before).push((entry.0@, entry.1@)));
                }
            },
            _ => {},
        }
        i += 1;
    }
    let ghost first = pairs_view(entries@);
    assert(pairs_view(entries@) =~= first + library_entries(libraries@, 0));
    let mut j: usize = 0;
    while j < libraries.len()
        invariant
            j <= libraries@.len(),
            pairs_view(entries@) == first + library_entries(libraries@, j as nat),
        decreases libraries@.len() - j,
    {
        let ghost before = entries@;
        let mut parts = parts_of(libraries[j].as_str(), ':');
        if parts.len() >= 3 {
            assert(texts_view(parts@)[1] == parts@[1]@);
            assert(texts_view(parts@)[2] == parts@[2]@);
            let address = parts.swap_remove(2);
            let name = parts.swap_remove(1);
            let entry = (name, address);
            entries.push(entry);
            assert(pairs_view(entries@) =~= pairs_view(before).push((entry.0@, entry.1@)));
        }
        assert(pairs_view(entries@) =~= first + library_entries(libraries@, (j + 1) as nat));
        j += 1;
    }
    entries
}

/// Whether an underscore goes before the character at `i`: it is an
/// upper-case letter, not the first character, and a lower-case letter
/// stands before or after it.
pub open spec fn starts_word(name: Seq<char>, i: int) -> bool {
    is_uppercase_char(name[i]) && i > 0 && (is_lowercase_char(name[i - 1]) || (i + 1 < name.len()
        && is_lowercase_char(name[i + 1])))
}

/// The first `count` characters of a name in upper-case snake case.
pub open spec fn snake_case(name: Seq<char>, count: nat) -> Seq<char>
    decreases count,
{
    if count == 0 || count > name.len() {
        Seq::empty()
    } else {
        let before = snake_case(name, (count - 1) as nat);
        if starts_word(name, count - 1) {
            before.push('_').push(ascii_uppercase(name[count - 1]))
        } else {
            before.push(ascii_uppercase(name[count - 1]))
        }
    }
}

/// Writes a contract's name in upper-case snake case.
pub fn get_snake_case_name(name: &str) -> (out: String)
    ensures
        out@ == snake_case(name@, name@.len()),
{
    let mut out = String::new();
    let n = name.unicode_len();
    let mut i: usize = 0;
    while i < n
        invariant
            i <= n,
            n == name@.len(),
            out@ == snake_case(name@, i as nat),
        decreases n - i,
    {
        let ch = name.get_char(i);
        if is_uppercase(ch) {
            if i > 0 && (is_lowercase(name.get_char(i - 1)) || (i + 1 < n && is_lowercase(
                name.get_char(i + 1),
            ))) {
                push_char(&mut out, '_');
            }
        }
        push_char(&mut out, to_ascii_uppercase(ch));
        i += 1;
    }
    out
}

/// The block number of a deployment in decimal notation, from the
/// hexadecimal text of its first receipt; empty where there is no such text
/// or it writes no number.
pub open spec fn block_number_text(hex: Option<Seq<char>>) -> Seq<char> {
    match hex {
        Some(text) => match hex_number(without_leading(text, "0x"@)) {
            Some(number) => decimal_digits(number as nat),
            None => Seq::empty(),
        },
        None => Seq::empty(),
    }
}

/// The block number of a deployment in decimal notation.
pub fn get_block_number(block_number_hex: Option<&str>) -> (number: String)
    ensures
        number@ == block_number_text(
            match block_number_hex {
                Some(text) => Some(text@),
                None => None,
            },
        ),
{
    match block_number_hex {
        Some(text) => match parse_hex_u64(trim_start_matches(text, "0x")) {
            Some(number) => u64_to_decimal(number),
            None => String::new(),
        },
        None => String::new(),
    }
}

/// The display name of the chain of a run; its id where it is unknown.
pub open spec fn chain_title(chain_id: Seq<char>) -> Seq<char> {
    match row_with_id(chain_id, 0) {
        Some(i) => chain_row(i).1,
        None => chain_id,
    }
}

/// The explorer page of a contract on the chain of a run.
pub open spec fn explorer_page(chain_id: Seq<char>, contract_addr: Seq<char>) -> Seq<char> {
    match row_with_id(chain_id, 0) {
        Some(i) => chain_row(i).2 + "address/"@ + contract_addr,
        None => "<N/A>"@,
    }
}

/// The row of the deployment table for one contract.
pub open spec fn table_row(run: BroadcastView, contract_addr: Seq<char>, contract_name: Seq<char>) -> Seq<
    char,
> {
    "| "@ + contract_name + " | ["@ + contract_addr + "]("@ + explorer_page(
        run.chain_id,
        contract_addr,
    ) + ") | [v"@ + run.version + "](https://github.com/sablier-labs/deployments/blob/main/"@
        + run.project + "/v"@ + run.version + ") |\n"@
}

/// The rows of the first `count` entries, one after the other.
pub open spec fn table_rows(run: BroadcastView, entries: Seq<(Seq<char>, Seq<char>)>, count: nat) -> Seq<
    char,
>
    decreases count,
{
    if count == 0 || count > entries.len() {
        Seq::empty()
    } else {
        table_rows(run, entries, (count - 1) as nat) + table_row(
            run,
            entries[count - 1].1,
            entries[count - 1].0,
        )
    }
}

/// The heading of the deployment table.
pub open spec fn table_header(run: BroadcastView) -> Seq<char> {
    "## "@ + chain_title(run.chain_id)
        + "\n\n| Contract | Address | Deployment |\n| :------- | :------ | :----------|\n"@
}

/// The deployment table: heading, one row per contract, an empty line.
pub open spec fn deployment_table(
    run: BroadcastView,
    returned: Seq<ReturnedContract>,
    libraries: Seq<String>,
) -> Seq<char> {
    table_header(run) + table_rows(
        run,
        contract_entries(returned, libraries),
        contract_entries(returned, libraries).len(),
    ) + "\n"@
}

/// The entry of the deployments file for one contract.
pub open spec fn manifest_entry(
    chain: Seq<char>,
    name: Seq<char>,
    address: Seq<char>,
    block_number: Seq<char>,
) -> Seq<char> {
    "chains."@ + chain + ".id, { [manifest."@ + name + "]: [\""@ + address + "\", "@ + block_number
        + "]"@
}

/// The entries of the first `count` contracts, one after the other, each
/// under its name in upper-case snake case.
pub open spec fn manifest_entries(
    chain: Seq<char>,
    block_number: Seq<char>,
    entries: Seq<(Seq<char>, Seq<char>)>,
    count: nat,
) -> Seq<char>
    decreases count,
{
    if count == 0 || count > entries.len() {
        Seq::empty()
    } else {
        manifest_entries(chain, block_number, entries, (count - 1) as nat) + manifest_entry(
            chain,
            snake_case(entries[count - 1].0, entries[count - 1].0.len()),
            entries[count - 1].1,
            block_number,
        )
    }
}

/// The deployments file of a run on `chain`.
pub open spec fn deployments_file(
    chain: Seq<char>,
    returned: Seq<ReturnedContract>,
    libraries: Seq<String>,
    block_number_hex: Option<Seq<char>>,
) -> Seq<char> {
    "get( \n"@ + manifest_entries(
        chain,
        block_number_text(block_number_hex),
        contract_entries(returned, libraries),
        contract_entries(returned, libraries).len(),
    ) + "\n}),"@
}

impl Broadcast {
    /// Appends the row of one contract to the deployment table.
    fn add_to_table(&self, deployment_table: &mut String, contract_addr: &str, contract_name: &str)
        ensures
            final(deployment_table)@ == old(deployment_table)@ + table_row(
                self@,
                contract_addr@,
                contract_name@,
            ),
    {
        let mut row = String::from_str("| ");
        row.append(contract_name);
        row.append(" | [");
        row.append(contract_addr);
        row.append("](");
        row.append(
            get_explorer_url_with_address(self.chain_id.as_str(), contract_addr).as_str(),
        );
        row.append(") | [v");
        row.append(self.version.as_str());
        row.append("](https://github.com/sablier-labs/deployments/blob/main/");
        row.append(self.project.as_str());
        row.append("/v");
        row.append(self.version.as_str());
        row.append(") |\n");
        deployment_table.append(row.as_str());
    }

    /// The deployment table of the run, in Markdown: a heading with the
    /// chain's name, then a row for each returned contract and each library.
    pub fn generate_deployment_table(
        &self,
        returned: &Vec<ReturnedContract>,
        libraries: &Vec<String>,
    ) -> (table: String)
        ensures
            table@ == deployment_table(self@, returned@, libraries@),
    {
        let mut table = String::from_str("## ");
        table.append(get_name(self.chain_id.as_str()));
        table.append("\n\n| Contract | Address | Deployment |\n| :------- | :------ | :----------|\n");
        let entries = list_contracts(returned, libraries);
        let ghost listed = contract_entries(returned@, libraries@);
        assert(table@ =~= table_header(self@) + table_rows(self@, listed, 0));
        let mut i: usize = 0;
        while i < entries.len()
            invariant
                i <= entries@.len(),
                pairs_view(entries@) == listed,
                table@ == table_header(self@) + table_rows(self@, listed, i as nat),
            decreases entries@.len() - i,
        {
            assert(pairs_view(entries@)[i as int] == (entries@[i as int].0@, entries@[i as int].1@));
            let ghost before = table@;
            self.add_to_table(&mut table, entries[i].1.as_str(), entries[i].0.as_str());
            assert(table@ =~= table_header(self@) + table_rows(self@, listed, (i + 1) as nat));
            i += 1;
        }
        table.append("\n");
        table
    }

    /// The deployments file of the run on `chain`: one entry for each
    /// returned contract and each library, all with the block number of the
    /// deployment's first receipt.
    pub fn get_deployments_file(
        &self,
        chain: &str,
        returned: &Vec<ReturnedContract>,
        libraries: &Vec<String>,
        block_number_hex: Option<&str>,
    ) -> (file: String)
        ensures
            file@ == deployments_file(
                chain@,
                returned@,
                libraries@,
                match block_number_hex {
                    Some(text) => Some(text@),
                    None => None,
                },
            ),
    {
        let block_number = get_block_number(block_number_hex);
        let entries = list_contracts(returned, libraries);
        let ghost listed = contract_entries(returned@, libraries@);
        let mut file = String::from_str("get( \n");
        assert(file@ =~= "get( \n"@ + manifest_entries(chain@, block_number@, listed, 0));
        let mut i: usize = 0;
        while i < entries.len()
            invariant
                i <= entries@.len(),
                pairs_view(entries@) == listed,
                file@ == "get( \n"@ + manifest_entries(chain@, block_number@, listed, i as nat),
            decreases entries@.len() - i,
        {
            assert(pairs_view(entries@)[i as int] == (entries@[i as int].0@, entries@[i as int].1@));
            let name = get_snake_case_name(entries[i].0.as_str());
            let mut raw = String::from_str("chains.");
            raw.append(chain);
            raw.append(".id, { [manifest.");
            raw.append(name.as_str());
            raw.append("]: [\"");
            raw.append(entries[i].1.as_str());
            raw.append("\", ");
            raw.append(block_number.as_str());
            raw.append("]");
            file.append(raw.as_str());
            assert(file@ =~= "get( \n"@ + manifest_entries(
                chain@,
                block_number@,
                listed,
                (i + 1) as nat,
            ));
            i += 1;
        }
        file.append("\n}),");
        file
    }
}

} // verus!
