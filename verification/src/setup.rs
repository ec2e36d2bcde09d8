//! What a run is set up with: the shard type, the set size, the journal
//! flavor, and the paths that follow from them.

use crate::error::{ErrorKind, GenError};
use crate::text::{
    decimal, eq_ignore_ascii_case, int_text, matches_ignoring_case, push_decimal, push_int,
    push_zero_padded, same_text, zero_padded,
};
use crate::time::{strtime_format, strtime_text, Civil, TxnTime};
use vstd::prelude::*;
use vstd::string::StrSliceExecFns;
use vstd::string::StringExecFns;

verus! {

/// How the transactions are split over files.
#[derive(Debug, Clone, Copy, PartialEq, Eq, Structural)]
pub enum ShardType {
    /// All transactions in one file.
    Single,
    /// One file per month of the year.
    Month,
    /// One file per transaction.
    Txn,
}

impl Default for ShardType {
    fn default() -> (shard: Self)
        ensures
            shard == ShardType::Single,
    {
        ShardType::Single
    }
}

impl ShardType {
    /// The name of the single shard.
    pub const SINGLE: &'static str = "single";

    /// The name of the shard by month.
    pub const MONTH: &'static str = "month";

    /// The name of the shard by transaction.
    pub const TXN: &'static str = "txn";

    /// The name of the shard type, as it is given on input and written in
    /// directory names.
    pub open spec fn name_text(self) -> Seq<char> {
        match self {
            ShardType::Single => "single"@,
            ShardType::Month => "month"@,
            ShardType::Txn => "txn"@,
        }
    }

    /// The shard type that a name stands for.
    pub open spec fn parse(value: Seq<char>) -> Option<ShardType> {
        if value == "single"@ {
            Some(ShardType::Single)
        } else if value == "month"@ {
            Some(ShardType::Month)
        } else if value == "txn"@ {
            Some(ShardType::Txn)
        } else {
            None
        }
    }

    /// The message for a name that is no shard type.
    pub open spec fn unknown_text(value: Seq<char>) -> Seq<char> {
        "Unknown shard type: "@ + value + ", supported types are: single, month, txn"@
    }

    /// The name of the shard type.
    pub fn name(&self) -> (s: &'static str)
        ensures
            s@ == self.name_text(),
    {
        match self {
            ShardType::Single => "single",
            ShardType::Month => "month",
            ShardType::Txn => "txn",
        }
    }

    /// Reads a shard type from its name. The name is matched as it stands.
    pub fn try_from(value: &str) -> (r: Result<ShardType, GenError>)
        ensures
            match r {
                Ok(shard) => ShardType::parse(value@) == Some(shard),
                Err(e) => ShardType::parse(value@) is None && e.is(
                    ErrorKind::InvalidArgument,
                    ShardType::unknown_text(value@),
                ),
            },
    {
        if same_text(value, "single") {
            Ok(ShardType::Single)
        } else if same_text(value, "month") {
            Ok(ShardType::Month)
        } else if same_text(value, "txn") {
            Ok(ShardType::Txn)
        } else {
            let mut msg = String::new();
            msg.append("Unknown shard type: ");
            msg.append(value);
            msg.append(", supported types are: single, month, txn");
            assert(msg@ =~= ShardType::unknown_text(value@));
            Err(GenError::new(ErrorKind::InvalidArgument, msg))
        }
    }
}

/// How many transactions a set holds.
#[derive(Debug, Clone, Copy, PartialEq, Eq, Structural)]
pub enum SetSize {
    Sz1e1,
    Sz1e2,
    Sz1e3,
    Sz1e4,
    Sz1e5,
    Sz1e6,
}

impl Default for SetSize {
    fn default() -> (set: Self)
        ensures
            set == SetSize::Sz1e3,
    {
        SetSize::Sz1e3
    }
}

impl SetSize {
    /// The token of ten transactions.
    pub const SZ1E1: &'static str = "1e1";

    /// The token of a hundred transactions.
    pub const SZ1E2: &'static str = "1e2";

    /// The token of a thousand transactions.
    pub const SZ1E3: &'static str = "1e3";

    /// The token of ten thousand transactions.
    pub const SZ1E4: &'static str = "1e4";

    /// The token of a hundred thousand transactions.
    pub const SZ1E5: &'static str = "1e5";

    /// The token of a million transactions.
    pub const SZ1E6: &'static str = "1e6";

    /// The token of the size in small letters, as it is given on input and
    /// written in paths.
    pub open spec fn token(self) -> Seq<char> {
        match self {
            SetSize::Sz1e1 => "1e1"@,
            SetSize::Sz1e2 => "1e2"@,
            SetSize::Sz1e3 => "1e3"@,
            SetSize::Sz1e4 => "1e4"@,
            SetSize::Sz1e5 => "1e5"@,
            SetSize::Sz1e6 => "1e6"@,
        }
    }

    /// The token of the size in capital letters, as it is written in
    /// transactions.
    pub open spec fn upper_token(self) -> Seq<char> {
        match self {
            SetSize::Sz1e1 => "1E1"@,
            SetSize::Sz1e2 => "1E2"@,
            SetSize::Sz1e3 => "1E3"@,
            SetSize::Sz1e4 => "1E4"@,
            SetSize::Sz1e5 => "1E5"@,
            SetSize::Sz1e6 => "1E6"@,
        }
    }

    /// The number of transactions of the set.
    pub open spec fn count(self) -> nat {
        match self {
            SetSize::Sz1e1 => 10,
            SetSize::Sz1e2 => 100,
            SetSize::Sz1e3 => 1_000,
            SetSize::Sz1e4 => 10_000,
            SetSize::Sz1e5 => 100_000,
            SetSize::Sz1e6 => 1_000_000,
        }
    }

    /// The size as it is shown to the user: the token, then the count.
    pub open spec fn label_text(self) -> Seq<char> {
        match self {
            SetSize::Sz1e1 => "1e1 (10)"@,
            SetSize::Sz1e2 => "1e2 (100)"@,
            SetSize::Sz1e3 => "1e3 (1_000)"@,
            SetSize::Sz1e4 => "1e4 (10_000)"@,
            SetSize::Sz1e5 => "1e5 (100_000)"@,
            SetSize::Sz1e6 => "1e6 (1_000_000)"@,
        }
    }

    /// The size that a token stands for, capitals and small letters taken
    /// alike.
    pub open spec fn parse(value: Seq<char>) -> Option<SetSize> {
        if eq_ignore_ascii_case(value, "1e1"@) {
            Some(SetSize::Sz1e1)
        } else if eq_ignore_ascii_case(value, "1e2"@) {
            Some(SetSize::Sz1e2)
        } else if eq_ignore_ascii_case(value, "1e3"@) {
            Some(SetSize::Sz1e3)
        } else if eq_ignore_ascii_case(value, "1e4"@) {
            Some(SetSize::Sz1e4)
        } else if eq_ignore_ascii_case(value, "1e5"@) {
            Some(SetSize::Sz1e5)
        } else if eq_ignore_ascii_case(value, "1e6"@) {
            Some(SetSize::Sz1e6)
        } else {
            None
        }
    }

    /// The message for a token that is no set size.
    pub open spec fn unknown_text(value: Seq<char>) -> Seq<char> {
        "Unknown set size: "@ + value
            + ", supported sizes are (1E1, 1E2, ...):\n1e1 (10)\n1e2 (100)\n1e3 (1_000)\n1e4 (10_000)\n1e5 (100_000)\n1e6 (1_000_000)"@
    }

    /// The token of the size, in small letters.
    pub fn str(&self) -> (s: &'static str)
        ensures
            s@ == self.token(),
    {
        match self {
            SetSize::Sz1e1 => "1e1",
            SetSize::Sz1e2 => "1e2",
            SetSize::Sz1e3 => "1e3",
            SetSize::Sz1e4 => "1e4",
            SetSize::Sz1e5 => "1e5",
            SetSize::Sz1e6 => "1e6",
        }
    }

    /// The token of the size, in capital letters.
    pub fn display_token(&self) -> (s: &'static str)
        ensures
            s@ == self.upper_token(),
    {
        match self {
            SetSize::Sz1e1 => "1E1",
            SetSize::Sz1e2 => "1E2",
            SetSize::Sz1e3 => "1E3",
            SetSize::Sz1e4 => "1E4",
            SetSize::Sz1e5 => "1E5",
            SetSize::Sz1e6 => "1E6",
        }
    }

    /// The number of transactions of the set.
    pub fn size(&self) -> (n: u32)
        ensures
            n == self.count(),
            10 <= n <= 1_000_000,
    {
        match self {
            SetSize::Sz1e1 => 10,
            SetSize::Sz1e2 => 100,
            SetSize::Sz1e3 => 1_000,
            SetSize::Sz1e4 => 10_000,
            SetSize::Sz1e5 => 100_000,
            SetSize::Sz1e6 => 1_000_000,
        }
    }

    /// The size as it is shown to the user.
    pub fn label(&self) -> (s: &'static str)
        ensures
            s@ == self.label_text(),
    {
        match self {
            SetSize::Sz1e1 => "1e1 (10)",
            SetSize::Sz1e2 => "1e2 (100)",
            SetSize::Sz1e3 => "1e3 (1_000)",
            SetSize::Sz1e4 => "1e4 (10_000)",
            SetSize::Sz1e5 => "1e5 (100_000)",
            SetSize::Sz1e6 => "1e6 (1_000_000)",
        }
    }

    /// Reads a set size from its token, capitals and small letters taken
    /// alike.
    pub fn try_from(value: &str) -> (r: Result<SetSize, GenError>)
        ensures
            match r {
                Ok(set) => SetSize::parse(value@) == Some(set),
                Err(e) => SetSize::parse(value@) is None && e.is(
                    ErrorKind::InvalidArgument,
                    SetSize::unknown_text(value@),
                ),
            },
    {
        if matches_ignoring_case(value, "1e1") {
            Ok(SetSize::Sz1e1)
        } else if matches_ignoring_case(value, "1e2") {
            Ok(SetSize::Sz1e2)
        } else if matches_ignoring_case(value, "1e3") {
            Ok(SetSize::Sz1e3)
        } else if matches_ignoring_case(value, "1e4") {
            Ok(SetSize::Sz1e4)
        } else if matches_ignoring_case(value, "1e5") {
            Ok(SetSize::Sz1e5)
        } else if matches_ignoring_case(value, "1e6") {
            Ok(SetSize::Sz1e6)
        } else {
            let mut msg = String::new();
            msg.append("Unknown set size: ");
            msg.append(value);
            msg.append(
                ", supported sizes are (1E1, 1E2, ...):\n1e1 (10)\n1e2 (100)\n1e3 (1_000)\n1e4 (10_000)\n1e5 (100_000)\n1e6 (1_000_000)",
            );
            assert(msg@ =~= SetSize::unknown_text(value@));
            Err(GenError::new(ErrorKind::InvalidArgument, msg))
        }
    }
}

/// The dialect in which a journal is written.
#[derive(Debug, Clone, Copy, PartialEq, Eq, Structural)]
pub enum JournalFlavor {
    Tackler,
    Ledger,
    Beancount,
}

impl Default for JournalFlavor {
    fn default() -> (flavor: Self)
        ensures
            flavor == JournalFlavor::Tackler,
    {
        JournalFlavor::Tackler
    }
}

impl JournalFlavor {
    /// The name of the Tackler flavor.
    pub const TACKLER: &'static str = "tackler";

    /// The name of the Ledger flavor.
    pub const LEDGER: &'static str = "ledger";

    /// The name of the Beancount flavor.
    pub const BEANCOUNT: &'static str = "beancount";

    /// The name of the flavor, as it is given on input.
    pub open spec fn name_text(self) -> Seq<char> {
        match self {
            JournalFlavor::Tackler => "tackler"@,
            JournalFlavor::Ledger => "ledger"@,
            JournalFlavor::Beancount => "beancount"@,
        }
    }

    /// The flavor that a name stands for.
    pub open spec fn parse(value: Seq<char>) -> Option<JournalFlavor> {
        if value == "tackler"@ {
            Some(JournalFlavor::Tackler)
        } else if value == "ledger"@ {
            Some(JournalFlavor::Ledger)
        } else if value == "beancount"@ {
            Some(JournalFlavor::Beancount)
        } else {
            None
        }
    }

    /// The message for a name that is no flavor.
    pub open spec fn unknown_text(value: Seq<char>) -> Seq<char> {
        "Unknown journal flavor: "@ + value
            + ", supported flavors are: tackler, ledger, beancount"@
    }

    /// The extension of a journal file of the flavor.
    pub open spec fn journal_extension(self) -> Seq<char> {
        match self {
            JournalFlavor::Tackler => "txn"@,
            JournalFlavor::Ledger => "journal"@,
            JournalFlavor::Beancount => "beancount"@,
        }
    }

    /// The extension of a chart file of the flavor.
    pub open spec fn chart_extension(self) -> Seq<char> {
        match self {
            JournalFlavor::Tackler => "toml"@,
            JournalFlavor::Ledger => "ledger"@,
            JournalFlavor::Beancount => "beancount"@,
        }
    }

    /// The name of the flavor.
    pub fn name(&self) -> (s: &'static str)
        ensures
            s@ == self.name_text(),
    {
        match self {
            JournalFlavor::Tackler => "tackler",
            JournalFlavor::Ledger => "ledger",
            JournalFlavor::Beancount => "beancount",
        }
    }

    /// Reads a flavor from its name. The name is matched as it stands.
    pub fn try_from(value: &str) -> (r: Result<JournalFlavor, GenError>)
        ensures
            match r {
                Ok(flavor) => JournalFlavor::parse(value@) == Some(flavor),
                Err(e) => JournalFlavor::parse(value@) is None && e.is(
                    ErrorKind::InvalidArgument,
                    JournalFlavor::unknown_text(value@),
                ),
            },
    {
        if same_text(value, "tackler") {
            Ok(JournalFlavor::Tackler)
        } else if same_text(value, "ledger") {
            Ok(JournalFlavor::Ledger)
        } else if same_text(value, "beancount") {
            Ok(JournalFlavor::Beancount)
        } else {
            let mut msg = String::new();
            msg.append("Unknown journal flavor: ");
            msg.append(value);
            msg.append(", supported flavors are: tackler, ledger, beancount");
            assert(msg@ =~= JournalFlavor::unknown_text(value@));
            Err(GenError::new(ErrorKind::InvalidArgument, msg))
        }
    }
}

/// `base` with `part` below it: the two joined by one `/`, which is left
/// out where `base` is empty or ends in one.
pub open spec fn join(base: Seq<char>, part: Seq<char>) -> Seq<char> {
    if base.len() == 0 || base.last() == '/' {
        base + part
    } else {
        base + "/"@ + part
    }
}

/// The path of `part` below `base`.
pub fn join_path(base: &str, part: &str) -> (path: String)
    ensures
        path@ == join(base@, part@),
{
    let n = base.unicode_len();
    let mut path = base.to_owned();
    if n > 0 && base.get_char(n - 1) != '/' {
        path.append("/");
    }
    path.append(part);
    path
}

/// The format of the time in the name of a transaction's own file.
pub open spec fn file_stamp_format() -> Seq<char> {
    "%Y%m%dT%H%M%S"@
}

/// The message for a time that could not be written out.
pub open spec fn time_format_text() -> Seq<char> {
    "Failed to format timestamp"@
}

/// The error for a time that could not be written out.
pub fn time_format_error() -> (e: GenError)
    ensures
        e.is(ErrorKind::InvalidArgument, time_format_text()),
{
    GenError::new(ErrorKind::InvalidArgument, "Failed to format timestamp".to_owned())
}

/// The configuration of one run. It is made once and read from then on.
#[derive(Debug)]
pub struct JournalSetup {
    pub flavor: JournalFlavor,
    /// The directory below which the set is written.
    pub path: String,
    pub txn_set: SetSize,
    pub shard_type: ShardType,
}

impl Clone for JournalSetup {
    fn clone(&self) -> (setup: Self)
        ensures
            setup == *self,
    {
        JournalSetup {
            flavor: self.flavor,
            path: self.path.clone(),
            txn_set: self.txn_set,
            shard_type: self.shard_type,
        }
    }
}

impl JournalSetup {
    /// Only the Tackler flavor can be split over several files.
    pub open spec fn compatible(flavor: JournalFlavor, shard_type: ShardType) -> bool {
        flavor == JournalFlavor::Tackler || shard_type == ShardType::Single
    }

    /// A setup whose flavor and shard type go together.
    pub open spec fn wf(&self) -> bool {
        Self::compatible(self.flavor, self.shard_type)
    }

    /// The message for a shard type that the flavor cannot have.
    pub open spec fn incompatible_text(flavor: JournalFlavor, shard_type: ShardType) -> Seq<char> {
        "Shard type '"@ + shard_type.name_text() + "' is not supported for journal flavor '"@
            + flavor.name_text() + "'. Use shard type 'single' instead."@
    }

    /// The name of the set's directory: `set-<size>-<shard type>`.
    pub open spec fn set_dir_text(&self) -> Seq<char> {
        "set-"@ + self.txn_set.token() + "-"@ + self.shard_type.name_text()
    }

    /// The set's directory below the output path.
    pub open spec fn set_path_text(&self) -> Seq<char> {
        join(self.path@, self.set_dir_text())
    }

    /// The directory of the charts.
    pub open spec fn conf_dir_text(&self) -> Seq<char> {
        join(self.set_path_text(), "conf"@)
    }

    /// The name of the file of the chart of accounts.
    pub open spec fn accounts_file_text(&self) -> Seq<char> {
        "accounts."@ + self.flavor.chart_extension()
    }

    /// The file of the chart of accounts.
    pub open spec fn accounts_path_text(&self) -> Seq<char> {
        join(self.conf_dir_text(), self.accounts_file_text())
    }

    /// The file of the chart of commodities.
    pub open spec fn commodities_path_text(&self) -> Seq<char> {
        join(self.conf_dir_text(), "commodities."@ + self.flavor.chart_extension())
    }

    /// The configuration file: beside the set's directory, named after it.
    pub open spec fn config_path_text(&self) -> Seq<char> {
        join(self.path@, self.set_dir_text() + ".toml"@)
    }

    /// The directory of the journal files.
    pub open spec fn txns_dir_text(&self) -> Seq<char> {
        join(self.set_path_text(), "txns"@)
    }

    /// The directory of the journal file of a transaction: the directory of
    /// the journal files, but for a transaction with a file of its own,
    /// which goes below it by year, month and day.
    pub open spec fn journal_dir_text(&self, ts: Civil) -> Seq<char> {
        match self.shard_type {
            ShardType::Single => self.txns_dir_text(),
            ShardType::Month => self.txns_dir_text(),
            ShardType::Txn => join(
                self.txns_dir_text(),
                int_text(ts.year) + "/"@ + zero_padded(ts.month, 2) + "/"@ + zero_padded(
                    ts.day,
                    2,
                ),
            ),
        }
    }

    /// The name of the journal file of a transaction. `stamp` is the time
    /// as it stands in the name of a transaction's own file.
    pub open spec fn journal_file_text(&self, ts: Civil, idx: u32, stamp: Seq<char>) -> Seq<char> {
        match self.shard_type {
            ShardType::Single => self.txn_set.token() + "."@ + self.flavor.journal_extension(),
            ShardType::Month => int_text(ts.year) + "-"@ + zero_padded(ts.month, 2) + ".txn"@,
            ShardType::Txn => stamp + "-"@ + decimal(idx as nat) + ".txn"@,
        }
    }

    /// The journal file of a transaction, with its directory.
    pub open spec fn journal_path_text(&self, ts: Civil, idx: u32, stamp: Seq<char>) -> Seq<char> {
        join(self.journal_dir_text(ts), self.journal_file_text(ts, idx, stamp))
    }

    /// The journal file of a transaction, with its directory, the time in
    /// the name of a transaction's own file being as jiff writes it. There
    /// is none for a transaction with a file of its own whose time cannot
    /// be written out.
    pub open spec fn journal_path_of(&self, ts: Civil, idx: u32) -> Option<Seq<char>> {
        match self.shard_type {
            ShardType::Txn => match strtime_text(file_stamp_format(), ts) {
                Some(stamp) => Some(self.journal_path_text(ts, idx, stamp)),
                None => None,
            },
            _ => Some(self.journal_path_text(ts, idx, Seq::empty())),
        }
    }

    /// Makes the setup of a run. A flavor other than Tackler goes with the
    /// single shard only, and this is found out here, before anything is
    /// written.
    pub fn try_new(flavor: JournalFlavor, path: &str, set: SetSize, shard_type: ShardType) -> (r:
        Result<JournalSetup, GenError>)
        ensures
            match r {
                Ok(setup) => {
                    &&& Self::compatible(flavor, shard_type)
                    &&& setup.wf()
                    &&& setup.flavor == flavor
                    &&& setup.path@ == path@
                    &&& setup.txn_set == set
                    &&& setup.shard_type == shard_type
                },
                Err(e) => !Self::compatible(flavor, shard_type) && e.is(
                    ErrorKind::IncompatibleConfiguration,
                    Self::incompatible_text(flavor, shard_type),
                ),
            },
    {
        if flavor != JournalFlavor::Tackler && shard_type != ShardType::Single {
            let mut msg = String::new();
            msg.append("Shard type '");
            msg.append(shard_type.name());
            msg.append("' is not supported for journal flavor '");
            msg.append(flavor.name());
            msg.append("'. Use shard type 'single' instead.");
            assert(msg@ =~= Self::incompatible_text(flavor, shard_type));
            return Err(GenError::new(ErrorKind::IncompatibleConfiguration, msg));
        }
        Ok(JournalSetup { flavor, txn_set: set, path: path.to_owned(), shard_type })
    }

    /// The name of the set's directory.
    pub fn txn_set_dir(&self) -> (dir: String)
        ensures
            dir@ == self.set_dir_text(),
    {
        let mut dir = String::new();
        dir.append("set-");
        dir.append(self.txn_set.str());
        dir.append("-");
        dir.append(self.shard_type.name());
        assert(dir@ =~= self.set_dir_text());
        dir
    }

    /// The set's directory below the output path.
    pub fn txn_set_path(&self) -> (path: String)
        ensures
            path@ == self.set_path_text(),
    {
        let set_dir = self.txn_set_dir();
        join_path(self.path.as_str(), set_dir.as_str())
    }

    /// The extension of the flavor's chart files.
    fn chart_extension(&self) -> (ext: &'static str)
        ensures
            ext@ == self.flavor.chart_extension(),
    {
        match self.flavor {
            JournalFlavor::Tackler => "toml",
            JournalFlavor::Ledger => "ledger",
            JournalFlavor::Beancount => "beancount",
        }
    }

    /// The name of the file of the chart of accounts.
    pub fn chart_of_accounts_file(&self) -> (name: String)
        ensures
            name@ == self.accounts_file_text(),
    {
        let mut name = String::new();
        name.append("accounts.");
        name.append(self.chart_extension());
        assert(name@ =~= "accounts."@ + self.flavor.chart_extension());
        name
    }

    /// The directory and the file of the chart of accounts.
    pub fn chart_of_accounts_path(&self) -> (r: (String, String))
        ensures
            r.0@ == self.conf_dir_text(),
            r.1@ == self.accounts_path_text(),
    {
        let chart_dir = join_path(self.txn_set_path().as_str(), "conf");
        let name = self.chart_of_accounts_file();
        let chart_path = join_path(chart_dir.as_str(), name.as_str());
        (chart_dir, chart_path)
    }

    /// The directory and the file of the chart of commodities.
    pub fn chart_of_commodities_path(&self) -> (r: (String, String))
        ensures
            r.0@ == self.conf_dir_text(),
            r.1@ == self.commodities_path_text(),
    {
        let chart_dir = join_path(self.txn_set_path().as_str(), "conf");
        let mut name = String::new();
        name.append("commodities.");
        name.append(self.chart_extension());
        assert(name@ =~= "commodities."@ + self.flavor.chart_extension());
        let chart_path = join_path(chart_dir.as_str(), name.as_str());
        (chart_dir, chart_path)
    }

    /// The directory and the file of the run's configuration.
    pub fn config_path(&self) -> (r: (String, String))
        ensures
            r.0@ == self.path@,
            r.1@ == self.config_path_text(),
    {
        let mut name = self.txn_set_dir();
        name.append(".toml");
        let toml_path = join_path(self.path.as_str(), name.as_str());
        (self.path.clone(), toml_path)
    }

    /// The directory and the file of a transaction's journal, given the
    /// time as it stands in the name of a transaction's own file.
    ///
    /// - single: `<path>/set-<size>-single/txns/<size>.<ext>`, with the
    ///   extension of the flavor
    /// - month: `<path>/set-<size>-month/txns/YYYY-MM.txn`
    /// - txn: `<path>/set-<size>-txn/txns/YYYY/MM/DD/<stamp>-<idx>.txn`
    pub fn journal_path_with(&self, ts: &TxnTime, idx: u32, stamp: &str) -> (r: (String, String))
        ensures
            r.0@ == self.journal_dir_text(ts@),
            r.1@ == self.journal_path_text(ts@, idx, stamp@),
    {
        let txns = join_path(self.txn_set_path().as_str(), "txns");
        match self.shard_type {
            ShardType::Single => {
                let mut journal = String::new();
                journal.append(self.txn_set.str());
                journal.append(".");
                journal.append(
                    match self.flavor {
                        JournalFlavor::Tackler => "txn",
                        JournalFlavor::Ledger => "journal",
                        JournalFlavor::Beancount => "beancount",
                    },
                );
                assert(journal@ =~= self.journal_file_text(ts@, idx, stamp@));
                let txn_path = join_path(txns.as_str(), journal.as_str());
                (txns, txn_path)
            },
            ShardType::Month => {
                let mut journal = String::new();
                push_int(&mut journal, ts.year() as i64);
                journal.append("-");
                push_zero_padded(&mut journal, ts.month() as i64, 2);
                journal.append(".txn");
                assert(journal@ =~= self.journal_file_text(ts@, idx, stamp@));
                let txn_path = join_path(txns.as_str(), journal.as_str());
                (txns, txn_path)
            },
            ShardType::Txn => {
                let mut shard = String::new();
                push_int(&mut shard, ts.year() as i64);
                shard.append("/");
                push_zero_padded(&mut shard, ts.month() as i64, 2);
                shard.append("/");
                push_zero_padded(&mut shard, ts.day() as i64, 2);
                assert(shard@ =~= int_text(ts@.year) + "/"@ + zero_padded(ts@.month, 2) + "/"@
                    + zero_padded(ts@.day, 2));
                let mut journal = String::new();
                journal.append(stamp);
                journal.append("-");
                push_decimal(&mut journal, idx as u64);
                journal.append(".txn");
                assert(journal@ =~= self.journal_file_text(ts@, idx, stamp@));
                let txn_dir = join_path(txns.as_str(), shard.as_str());
                let txn_path = join_path(txn_dir.as_str(), journal.as_str());
                (txn_dir, txn_path)
            },
        }
    }

    /// The directory and the file of a transaction's journal. Only the file
    /// of a transaction of its own has the time in its name; the path is
    /// given exactly where that time can be written out.
    pub fn journal_path(&self, ts: &TxnTime, idx: u32) -> (r: Result<(String, String), GenError>)
        ensures
            match r {
                Ok(p) => {
                    &&& p.0@ == self.journal_dir_text(ts@)
                    &&& self.journal_path_of(ts@, idx) == Some(p.1@)
                },
                Err(e) => {
                    &&& self.journal_path_of(ts@, idx) is None
                    &&& self.shard_type == ShardType::Txn
                    &&& e.is(ErrorKind::InvalidArgument, time_format_text())
                },
            },
    {
        match self.shard_type {
            ShardType::Txn => {
                match strtime_format("%Y%m%dT%H%M%S", ts) {
                    Some(stamp) => Ok(self.journal_path_with(ts, idx, stamp.as_str())),
                    None => Err(time_format_error()),
                }
            },
            _ => Ok(self.journal_path_with(ts, idx, "")),
        }
    }
}

} // verus!
