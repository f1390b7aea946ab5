//! The broadcast ledger, its records, how it is made durable, and the
//! registry of deployed contracts.

use crate::errors::CollectError;
use vstd::prelude::*;
use vstd::string::StringExecFns;

verus! {

/// The collected amount as the ledger file holds it: a JSON string, or any
/// other JSON value kept as its text.
#[derive(Clone, Debug, PartialEq, Eq)]
pub enum FeeValue {
    Text(String),
    Json(String),
}

/// The mathematical value of a `FeeValue`.
pub enum FeeValueView {
    Text(Seq<char>),
    Json(Seq<char>),
}

impl View for FeeValue {
    type V = FeeValueView;

    open spec fn view(&self) -> FeeValueView {
        match self {
            FeeValue::Text(text) => FeeValueView::Text(text@),
            FeeValue::Json(text) => FeeValueView::Json(text@),
        }
    }
}

/// One successful fee collection.
#[derive(Clone, Debug, PartialEq, Eq)]
pub struct BroadcastState {
    pub admin: String,
    pub block_number: String,
    pub chain_id: String,
    pub chain_name: String,
    pub contract_address: String,
    pub contract_name: String,
    pub fee_collected: FeeValue,
    pub timestamp_utc: String,
    pub tx_hash: String,
}

/// The mathematical value of a record.
pub struct BroadcastStateView {
    pub admin: Seq<char>,
    pub block_number: Seq<char>,
    pub chain_id: Seq<char>,
    pub chain_name: Seq<char>,
    pub contract_address: Seq<char>,
    pub contract_name: Seq<char>,
    pub fee_collected: FeeValueView,
    pub timestamp_utc: Seq<char>,
    pub tx_hash: Seq<char>,
}

impl View for BroadcastState {
    type V = BroadcastStateView;

    open spec fn view(&self) -> BroadcastStateView {
        BroadcastStateView {
            admin: self.admin@,
            block_number: self.block_number@,
            chain_id: self.chain_id@,
            chain_name: self.chain_name@,
            contract_address: self.contract_address@,
            contract_name: self.contract_name@,
            fee_collected: self.fee_collected@,
            timestamp_utc: self.timestamp_utc@,
            tx_hash: self.tx_hash@,
        }
    }
}

/// The values of a sequence of records, in order.
pub open spec fn records_view(records: Seq<BroadcastState>) -> Seq<BroadcastStateView> {
    records.map_values(|record: BroadcastState| record@)
}

/// What was found at the ledger's path.
#[derive(Clone, Debug, PartialEq, Eq)]
pub enum LedgerFile {
    /// No file exists there.
    Missing,
    /// The file parsed as an array of records.
    Records(Vec<BroadcastState>),
    /// The file exists and is no array of records.
    Malformed,
}

/// Where a write of the ledger goes first, and where it is moved to.
#[derive(Clone, Debug, PartialEq, Eq)]
pub struct SavePlan {
    pub temporary: String,
    pub target: String,
}

/// The mathematical value of the ledger: its path and its records in order.
pub struct LedgerView {
    pub file_name: Seq<char>,
    pub broadcasts: Seq<BroadcastStateView>,
}

/// The ledger: the ordered records of all collections, bound to a file.
#[derive(Debug)]
pub struct BroadcastsState {
    file_name: String,
    broadcasts: Vec<BroadcastState>,
}

impl View for BroadcastsState {
    type V = LedgerView;

    closed spec fn view(&self) -> LedgerView {
        LedgerView { file_name: self.file_name@, broadcasts: records_view(self.broadcasts@) }
    }
}

/// The path of the temporary file beside `file_name`.
pub open spec fn temporary_path(file_name: Seq<char>) -> Seq<char> {
    file_name + ".tmp"@
}

impl BroadcastsState {
    /// A ledger bound to `file_name` that holds `broadcasts`.
    pub fn new(file_name: String, broadcasts: Vec<BroadcastState>) -> (ledger: Self)
        ensures
            ledger@.file_name == file_name@,
            ledger@.broadcasts == records_view(broadcasts@),
    {
        BroadcastsState { file_name, broadcasts }
    }

    /// The ledger for what was found at `file_name`, and whether it has to be
    /// written at once. A missing file gives an empty ledger that is written
    /// immediately; a parsed file gives its records; a malformed file fails
    /// the run.
    pub fn read_or_create(file_name: String, found: LedgerFile) -> (opened: Result<
        (Self, bool),
        CollectError,
    >)
        ensures
            match found {
                LedgerFile::Missing => opened.is_ok() && opened.unwrap().1 && opened.unwrap().0@
                    == (LedgerView { file_name: file_name@, broadcasts: Seq::empty() }),
                LedgerFile::Records(records) => opened.is_ok() && !opened.unwrap().1
                    && opened.unwrap().0@ == (LedgerView {
                    file_name: file_name@,
                    broadcasts: records_view(records@),
                }),
                LedgerFile::Malformed => opened == Err::<(Self, bool), CollectError>(
                    CollectError::ConfigurationError,
                ),
            },
    {
        match found {
            LedgerFile::Missing => {
                let ledger = BroadcastsState { file_name, broadcasts: Vec::new() };
                assert(ledger@.broadcasts =~= Seq::empty());
                Ok((ledger, true))
            },
            LedgerFile::Records(records) => Ok(
                (BroadcastsState { file_name, broadcasts: records }, false),
            ),
            LedgerFile::Malformed => Err(CollectError::ConfigurationError),
        }
    }

    /// Appends a record at the end and says how to make the ledger durable.
    pub fn update_and_save(&mut self, new_broadcast: BroadcastState) -> (plan: SavePlan)
        ensures
            final(self)@.file_name == old(self)@.file_name,
            final(self)@.broadcasts == old(self)@.broadcasts.push(new_broadcast@),
            plan.target@ == old(self)@.file_name,
            plan.temporary@ == temporary_path(old(self)@.file_name),
    {
        self.broadcasts.push(new_broadcast);
        assert(self@.broadcasts =~= old(self)@.broadcasts.push(new_broadcast@));
        self.save_to_file()
    }

    /// How to make the ledger durable: write all of it to the temporary file
    /// beside it, flush, then rename that file over the ledger's own.
    pub fn save_to_file(&self) -> (plan: SavePlan)
        ensures
            plan.target@ == self@.file_name,
            plan.temporary@ == temporary_path(self@.file_name),
    {
        let mut temporary = self.file_name.clone();
        temporary.append(".tmp");
        SavePlan { temporary, target: self.file_name.clone() }
    }

    /// The path the ledger is bound to.
    pub fn file_name(&self) -> (name: &String)
        ensures
            name@ == self@.file_name,
    {
        &self.file_name
    }

    /// The records, oldest first.
    pub fn broadcasts(&self) -> (records: &Vec<BroadcastState>)
        ensures
            records_view(records@) == self@.broadcasts,
    {
        &self.broadcasts
    }
}

/// The campaigns that one factory administers.
#[derive(Clone, Debug, PartialEq, Eq)]
pub struct CampaignDeploymentsByFactory {
    pub factory_address: String,
    pub campaigns: Vec<String>,
}

/// The contracts deployed on one chain, each list in the registry's order.
/// `merkle_contracts` pairs each factory label with its factory.
#[derive(Clone, Debug, PartialEq, Eq)]
pub struct DeploymentsByChain {
    pub chain_id: u64,
    pub lockup: Vec<String>,
    pub flow: Vec<String>,
    pub merkle_contracts: Vec<(String, CampaignDeploymentsByFactory)>,
}

/// The registry: each chain's name with what is deployed on it.
#[derive(Clone, Debug, PartialEq, Eq)]
pub struct Deployments {
    pub chains: Vec<(String, DeploymentsByChain)>,
}

/// One operation on files, as far as persistence needs it.
pub enum FileOp {
    /// Creates or replaces the file at `path` with `content`.
    Write { path: Seq<char>, content: Seq<u8> },
    /// Moves the file at `from` over the one at `to`, in one step.
    Rename { from: Seq<char>, to: Seq<char> },
}

/// The files after one operation.
pub open spec fn apply_op(files: Map<Seq<char>, Seq<u8>>, op: FileOp) -> Map<Seq<char>, Seq<u8>> {
    match op {
        FileOp::Write { path, content } => files.insert(path, content),
        FileOp::Rename { from, to } => if files.dom().contains(from) {
            files.remove(from).insert(to, files[from])
        } else {
            files
        },
    }
}

/// The files after the first `count` of the operations.
pub open spec fn apply_ops(
    files: Map<Seq<char>, Seq<u8>>,
    ops: Seq<FileOp>,
    count: nat,
) -> Map<Seq<char>, Seq<u8>>
    decreases count,
{
    if count == 0 || count > ops.len() {
        files
    } else {
        apply_op(apply_ops(files, ops, (count - 1) as nat), ops[count - 1])
    }
}

/// The operations that carry out a plan with the serialised ledger.
pub open spec fn save_ops(plan: SavePlan, content: Seq<u8>) -> Seq<FileOp> {
    seq![
        FileOp::Write { path: plan.temporary@, content },
        FileOp::Rename { from: plan.temporary@, to: plan.target@ },
    ]
}

/// The temporary file is never the ledger's own file.
pub proof fn lemma_temporary_differs(file_name: Seq<char>)
    ensures
        temporary_path(file_name) != file_name,
{
    reveal_strlit(".tmp");
    assert(temporary_path(file_name).len() == file_name.len() + 4);
}

/// Atomic persistence: as long as the rename has not happened, the ledger's
/// own file is as it was, whether the write of the temporary file happened
/// or not. The plan is one that a ledger gives for itself.
pub proof fn lemma_interrupted_save_keeps_ledger(
    files: Map<Seq<char>, Seq<u8>>,
    plan: SavePlan,
    content: Seq<u8>,
    done: nat,
)
    requires
        plan.temporary@ == temporary_path(plan.target@),
        done < 2,
    ensures
        apply_ops(files, save_ops(plan, content), done).dom().contains(plan.target@)
            == files.dom().contains(plan.target@),
        files.dom().contains(plan.target@) ==> apply_ops(files, save_ops(plan, content), done)[plan.target@]
            == files[plan.target@],
{
    lemma_temporary_differs(plan.target@);
    let ops = save_ops(plan, content);
    assert(apply_ops(files, ops, 0) == files);
    if done == 1 {
        assert(apply_ops(files, ops, 1) == apply_op(apply_ops(files, ops, 0), ops[0]));
    }
}

/// Writing then reading back: once the whole plan is carried out, the
/// ledger's own file holds exactly the content written, and the temporary
/// file is gone.
pub proof fn lemma_completed_save_is_read_back(
    files: Map<Seq<char>, Seq<u8>>,
    plan: SavePlan,
    content: Seq<u8>,
)
    requires
        plan.temporary@ == temporary_path(plan.target@),
    ensures
        apply_ops(files, save_ops(plan, content), 2).dom().contains(plan.target@),
        apply_ops(files, save_ops(plan, content), 2)[plan.target@] == content,
        !apply_ops(files, save_ops(plan, content), 2).dom().contains(plan.temporary@),
{
    lemma_temporary_differs(plan.target@);
    let ops = save_ops(plan, content);
    assert(apply_ops(files, ops, 0) == files);
    assert(apply_ops(files, ops, 1) == apply_op(apply_ops(files, ops, 0), ops[0]));
    assert(apply_ops(files, ops, 2) == apply_op(apply_ops(files, ops, 1), ops[1]));
}

} // verus!
