//! Which file a transaction is written to, and whether that file has to be
//! created or is open already.
//!
//! The writer holds no file. It keeps the book of the files that a run has
//! open, and says for every piece of text what is to be done with it. Who
//! does it creates a file only on being told to, and never one that is
//! there already, so that no run writes over another.

use crate::error::{ErrorKind, GenError};
use crate::setup::{
    time_format_text, JournalFlavor, JournalSetup, SetSize, ShardType,
};
use crate::time::{Civil, TxnTime};
use vstd::prelude::*;
use vstd::string::StringExecFns;

verus! {

/// What is to be done with a piece of text.
#[derive(Debug, PartialEq, Eq)]
pub enum Target {
    /// Create `dir` with all that is missing above it, then create the file
    /// `path`, which must not be there, and write to it. Where `keep` holds
    /// a number, keep the file open under it; where it holds none, close
    /// the file after the write.
    Create { dir: String, path: String, keep: Option<usize> },
    /// Write to the file that is open under the number `slot`.
    Append { slot: usize },
}

impl Target {
    /// The target creates `path` in `dir` and keeps it as `keep` says.
    pub open spec fn creates(&self, dir: Seq<char>, path: Seq<char>, keep: Option<usize>) -> bool {
        &&& *self matches Target::Create { dir: d, path: p, keep: k }
        &&& d@ == dir
        &&& p@ == path
        &&& k == keep
    }
}

/// What is to be done with a piece of text, the directory and the path
/// being texts.
pub enum TargetText {
    /// Create the file `path` in the directory `dir`, and keep it open as
    /// `keep` says.
    Create { dir: Seq<char>, path: Seq<char>, keep: Option<usize> },
    /// Write to the file that is open under the number `slot`.
    Append { slot: usize },
}

impl View for Target {
    type V = TargetText;

    open spec fn view(&self) -> TargetText {
        match *self {
            Target::Create { dir, path, keep } => TargetText::Create {
                dir: dir@,
                path: path@,
                keep,
            },
            Target::Append { slot } => TargetText::Append { slot },
        }
    }
}

/// A piece of text and what is to be done with it.
#[derive(Debug, PartialEq, Eq)]
pub struct WriteOp {
    pub target: Target,
    pub text: String,
}

/// A piece of text and what is to be done with it, as texts.
pub struct WriteText {
    pub target: TargetText,
    pub text: Seq<char>,
}

impl View for WriteOp {
    type V = WriteText;

    open spec fn view(&self) -> WriteText {
        WriteText { target: self.target@, text: self.text@ }
    }
}

/// The number under which the journal file of a transaction is kept open:
/// one for the single journal, one for each month of the year whatever the
/// year, none for the file of a single transaction.
pub open spec fn shard_slot(shard_type: ShardType, ts: Civil) -> Option<usize> {
    match shard_type {
        ShardType::Single => Some(0usize),
        ShardType::Month => Some((ts.month - 1) as usize),
        ShardType::Txn => None,
    }
}

/// Whether a write under `slot` has to create its file: without a number
/// always, with one where no file is open under it.
pub open spec fn must_create(open: Seq<bool>, slot: Option<usize>) -> bool {
    match slot {
        Some(k) => !open[k as int],
        None => true,
    }
}

/// The open files after a write under `slot`.
pub open spec fn after_write(open: Seq<bool>, slot: Option<usize>) -> Seq<bool> {
    match slot {
        Some(k) => open.update(k as int, true),
        None => open,
    }
}

/// Where the transaction of the given number and time goes, under a book
/// of open files: its journal file is created where the write has to
/// create it, and is the open file otherwise. It goes nowhere where a file
/// would have to be created whose path cannot be given, which is so only
/// for a transaction with a file of its own whose time cannot be written
/// out.
pub open spec fn route_of(setup: JournalSetup, open: Seq<bool>, ts: Civil, idx: u32) -> Option<
    TargetText,
> {
    let slot = shard_slot(setup.shard_type, ts);
    if must_create(open, slot) {
        match setup.journal_path_of(ts, idx) {
            Some(path) => Some(
                TargetText::Create { dir: setup.journal_dir_text(ts), path, keep: slot },
            ),
            None => None,
        }
    } else {
        Some(TargetText::Append { slot: slot->0 })
    }
}

/// A file that is kept open is created once: the write that follows one
/// under the same number creates nothing, and no write closes a file.
pub proof fn lemma_created_once(open: Seq<bool>, slot: usize, later: Option<usize>)
    requires
        slot < open.len(),
        later matches Some(k) ==> k < open.len(),
    ensures
        !must_create(after_write(open, Some(slot)), Some(slot)),
        !must_create(after_write(after_write(open, Some(slot)), later), Some(slot)),
        forall|k: int|
            0 <= k < open.len() && open[k] ==> #[trigger] after_write(open, later)[k],
{
}

/// The book of the files that a run has open.
#[derive(Debug)]
pub struct JournalWriter {
    pub setup: JournalSetup,
    /// For each number, whether a file is open under it.
    pub writers: [bool; 12],
}

impl JournalWriter {
    /// Which numbers have an open file.
    pub open spec fn open_slots(&self) -> Seq<bool> {
        self.writers@
    }

    /// The message for a target that is there already.
    pub open spec fn exists_text(set_path: Seq<char>) -> Seq<char> {
        "Target path already exists: '"@ + set_path + "'"@
    }

    /// The set's directory as the setup of these arguments has it.
    pub open spec fn target_text(path: Seq<char>, set: SetSize, shard_type: ShardType) -> Seq<
        char,
    > {
        crate::setup::join(path, "set-"@ + set.token() + "-"@ + shard_type.name_text())
    }

    /// Starts the book of a run, with no file open. A set that is split
    /// over several files needs a directory of its own: `target_exists`
    /// says whether the set's directory is there already, and where it is
    /// the run fails before anything is written. Flavor and shard type are
    /// checked first.
    pub fn try_new(
        flavor: JournalFlavor,
        path: &str,
        set: SetSize,
        shard_type: ShardType,
        target_exists: bool,
    ) -> (r: Result<JournalWriter, GenError>)
        ensures
            match r {
                Ok(w) => {
                    &&& JournalSetup::compatible(flavor, shard_type)
                    &&& shard_type == ShardType::Single || !target_exists
                    &&& w.setup.wf()
                    &&& w.setup.flavor == flavor
                    &&& w.setup.path@ == path@
                    &&& w.setup.txn_set == set
                    &&& w.setup.shard_type == shard_type
                    &&& w.open_slots() == Seq::new(12, |k: int| false)
                },
                Err(e) => if !JournalSetup::compatible(flavor, shard_type) {
                    e.is(
                        ErrorKind::IncompatibleConfiguration,
                        JournalSetup::incompatible_text(flavor, shard_type),
                    )
                } else {
                    &&& shard_type != ShardType::Single
                    &&& target_exists
                    &&& e.is(
                        ErrorKind::PathConflict,
                        Self::exists_text(Self::target_text(path@, set, shard_type)),
                    )
                },
            },
    {
        let setup = match JournalSetup::try_new(flavor, path, set, shard_type) {
            Ok(setup) => setup,
            Err(e) => {
                return Err(e);
            },
        };
        if shard_type != ShardType::Single && target_exists {
            let mut msg = String::new();
            msg.append("Target path already exists: '");
            msg.append(setup.txn_set_path().as_str());
            msg.append("'");
            assert(msg@ =~= Self::exists_text(Self::target_text(path@, set, shard_type)));
            return Err(GenError::new(ErrorKind::PathConflict, msg));
        }
        let w = JournalWriter { setup, writers: [false; 12] };
        assert(w.open_slots() =~= Seq::new(12, |k: int| false));
        Ok(w)
    }

    /// The number under which the journal file of a transaction is kept.
    fn slot_of(&self, ts: &TxnTime) -> (slot: Option<usize>)
        ensures
            slot == shard_slot(self.setup.shard_type, ts@),
            slot matches Some(k) ==> k < 12,
    {
        match self.setup.shard_type {
            ShardType::Single => Some(0),
            ShardType::Month => Some((ts.month() - 1) as usize),
            ShardType::Txn => None,
        }
    }

    /// Says where the transaction of the given number and time is written.
    /// The first transaction of a journal file has it created, those after
    /// it go to the open file; a transaction with a file of its own has it
    /// created and closed. A month's file is the one of the first
    /// transaction of that month, whatever the year of those that follow.
    /// The write fails exactly where a file would have to be created whose
    /// path cannot be given, and then no file counts as open that was not.
    pub fn journal_writer(&mut self, ts: &TxnTime, idx: u32) -> (r: Result<Target, GenError>)
        ensures
            final(self).setup == old(self).setup,
            final(self).open_slots().len() == 12,
            match r {
                Ok(target) => {
                    &&& route_of(old(self).setup, old(self).open_slots(), ts@, idx) == Some(
                        target@,
                    )
                    &&& final(self).open_slots() == after_write(
                        old(self).open_slots(),
                        shard_slot(old(self).setup.shard_type, ts@),
                    )
                },
                Err(e) => {
                    &&& route_of(old(self).setup, old(self).open_slots(), ts@, idx) is None
                    &&& e.is(ErrorKind::InvalidArgument, time_format_text())
                    &&& final(self).open_slots() == old(self).open_slots()
                },
            },
    {
        let slot = self.slot_of(ts);
        match slot {
            Some(k) => {
                if self.writers[k] {
                    assert(self.open_slots() =~= after_write(self.open_slots(), slot));
                    return Ok(Target::Append { slot: k });
                }
            },
            None => {},
        }
        let (dir, path) = match self.setup.journal_path(ts, idx) {
            Ok(p) => p,
            Err(e) => {
                return Err(e);
            },
        };
        match slot {
            Some(k) => {
                self.writers[k] = true;
            },
            None => {},
        }
        assert(self.open_slots() =~= after_write(old(self).open_slots(), slot));
        Ok(Target::Create { dir, path, keep: slot })
    }

    /// Says where the text of a transaction is written, and fails exactly
    /// where `journal_writer` does.
    pub fn write_txn(&mut self, ts: &TxnTime, idx: u32, txn: &str) -> (r: Result<WriteOp, GenError>)
        ensures
            final(self).setup == old(self).setup,
            final(self).open_slots().len() == 12,
            match r {
                Ok(op) => {
                    &&& op.text@ == txn@
                    &&& route_of(old(self).setup, old(self).open_slots(), ts@, idx) == Some(
                        op.target@,
                    )
                    &&& final(self).open_slots() == after_write(
                        old(self).open_slots(),
                        shard_slot(old(self).setup.shard_type, ts@),
                    )
                },
                Err(e) => {
                    &&& route_of(old(self).setup, old(self).open_slots(), ts@, idx) is None
                    &&& e.is(ErrorKind::InvalidArgument, time_format_text())
                    &&& final(self).open_slots() == old(self).open_slots()
                },
            },
    {
        match self.journal_writer(ts, idx) {
            Ok(target) => Ok(WriteOp { target, text: txn.to_owned() }),
            Err(e) => Err(e),
        }
    }

    /// Says where the chart of accounts is written: to a file of its own,
    /// which is created.
    pub fn write_chart_of_accounts(&mut self, chart: &str) -> (op: WriteOp)
        ensures
            final(self).setup == old(self).setup,
            final(self).open_slots() == old(self).open_slots(),
            op.text@ == chart@,
            op.target.creates(
                old(self).setup.conf_dir_text(),
                old(self).setup.accounts_path_text(),
                None,
            ),
    {
        let (dir, path) = self.setup.chart_of_accounts_path();
        WriteOp { target: Target::Create { dir, path, keep: None }, text: chart.to_owned() }
    }

    /// Says where the chart of commodities is written: to a file of its
    /// own, which is created.
    pub fn write_chart_of_commodities(&mut self, chart: &str) -> (op: WriteOp)
        ensures
            final(self).setup == old(self).setup,
            final(self).open_slots() == old(self).open_slots(),
            op.text@ == chart@,
            op.target.creates(
                old(self).setup.conf_dir_text(),
                old(self).setup.commodities_path_text(),
                None,
            ),
    {
        let (dir, path) = self.setup.chart_of_commodities_path();
        WriteOp { target: Target::Create { dir, path, keep: None }, text: chart.to_owned() }
    }

    /// Says where the configuration is written: to a file of its own,
    /// which is created.
    pub fn write_config(&mut self, config: &str) -> (op: WriteOp)
        ensures
            final(self).setup == old(self).setup,
            final(self).open_slots() == old(self).open_slots(),
            op.text@ == config@,
            op.target.creates(old(self).setup.path@, old(self).setup.config_path_text(), None),
    {
        let (dir, path) = self.setup.config_path();
        WriteOp { target: Target::Create { dir, path, keep: None }, text: config.to_owned() }
    }
}

} // verus!
