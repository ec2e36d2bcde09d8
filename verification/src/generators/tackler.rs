//! The Tackler flavor: transactions plain, audited and with commodities,
//! charts in TOML, and the configuration of a set.

use crate::error::GenError;
use crate::generators::{
    assets_account, assets_account_name, chart_lines, commodity_code, commodity_name, date_of,
    date_text, expenses_account, expenses_account_name, header_text, postings_text,
    push_chart_lines, push_header, push_postings, references, AuditTxnGenerator,
    ChartOfAccGenerator, ChartOfCommGenerator, CommodityTxnGenerator, PlainTxnGenerator,
    TxnAccComm,
};
use crate::names::NameSet;
use crate::setup::{time_format_error, JournalSetup, SetSize};
use crate::time::{strtime_format, Civil, TxnTime};
use crate::txn_uuid::get_txn_uuid;
use vstd::prelude::*;
use vstd::string::StringExecFns;

verus! {

/// The generator of Tackler journals.
pub struct Tackler {}

/// A truth value as TOML writes it.
pub open spec fn bool_text(b: bool) -> Seq<char> {
    if b {
        "true"@
    } else {
        "false"@
    }
}

/// A truth value as TOML writes it.
fn bool_str(b: bool) -> (s: &'static str)
    ensures
        s@ == bool_text(b),
{
    if b {
        "true"
    } else {
        "false"
    }
}

/// Where the configuration finds a chart: below the set's directory in
/// strict mode, nowhere otherwise.
pub open spec fn chart_ref(strict_mode: bool, set_dir: Seq<char>, chart: Seq<char>) -> Seq<char> {
    if strict_mode {
        set_dir + "/conf/"@ + chart + ".toml"@
    } else {
        "none"@
    }
}

/// Where the configuration finds a chart.
fn chart_ref_of(strict_mode: bool, set_dir: &str, chart: &str) -> (path: String)
    ensures
        path@ == chart_ref(strict_mode, set_dir@, chart@),
{
    let mut path = String::new();
    if strict_mode {
        path.append(set_dir);
        path.append("/conf/");
        path.append(chart);
        path.append(".toml");
        assert(path@ =~= chart_ref(strict_mode, set_dir@, chart@));
    } else {
        path.append("none");
        assert(path@ =~= chart_ref(strict_mode, set_dir@, chart@));
    }
    path
}

/// The configuration with which Tackler reads a set: `set_dir` is the name
/// of the set's directory, `label` the size as it is shown.
pub open spec fn config_text(
    strict_mode: bool,
    audit_mode: bool,
    set_dir: Seq<char>,
    label: Seq<char>,
) -> Seq<char> {
    "#\n[kernel]\nstrict = "@
            + bool_text(strict_mode)
            + "\naudit = { mode = "@
            + bool_text(audit_mode)
            + ", hash = \"SHA-256\" }\ntimestamp = { default-time = 00:00:00, timezone = { name = \"UTC\" } }\n\n[kernel.input]\nstorage = \"fs\"\nfs  = { path = \""@
            + set_dir
            + "\",      dir = \"txns\", suffix = \"txn\" }\ngit = { repo = \""@
            + set_dir
            + "/.git\", dir = \"txns\", suffix = \"txn\", ref = \"main\" }\n\n[transaction]\naccounts    = { path = \""@
            + chart_ref(strict_mode, set_dir, "accounts"@)
            + "\" }\ncommodities = { path = \""@
            + chart_ref(strict_mode, set_dir, "commodities"@)
            + "\" }\ntags        = { path = \"none\" }\n\n[report]\nreport-timezone = \"UTC\"\nscale = { min = 2, max = 7 }\naccounts = [ ]\ntargets = [ \"balance\" ]\n\nbalance       = { title = \"Tackler: "@
            + label
            + " Balance Report\", type = \"flat\" }\nbalance-group = { title = \"Tackler: "@
            + label
            + " Balance Group Report\", type = \"flat\", group-by = \"month\" }\nregister      = { title = \"Tackler: "@
            + label
            + " Register Report\" }\n\n[export]\ntargets = [ ]\nequity = { accounts = [ \"Assets(:.*)?\", ], equity-account = \"Equity:Balance\" }\n"@
}

impl ChartOfAccGenerator for Tackler {
    open spec fn accounts_chart(accounts: Seq<Seq<char>>) -> Seq<char> {
        "accounts = [\n"@ + chart_lines(accounts, "   \""@, "\",\n"@) + "]\n"@
    }

    fn chart_of_accounts(accounts: &NameSet) -> (r: Result<String, GenError>) {
        let mut chart = String::new();
        chart.append("accounts = [\n");
        push_chart_lines(&mut chart, accounts, "   \"", "\",\n");
        chart.append("]\n");
        assert(chart@ =~= Self::accounts_chart(accounts@));
        Ok(chart)
    }
}

impl ChartOfCommGenerator for Tackler {
    open spec fn commodities_chart(commodities: Seq<Seq<char>>) -> Option<Seq<char>> {
        Some(
            "permit-empty-commodity = true\n"@ + "commodities = [\n"@ + chart_lines(
                commodities,
                "   \""@,
                "\",\n"@,
            ) + "]\n"@,
        )
    }

    open spec fn no_commodities_chart_text() -> Seq<char> {
        Seq::empty()
    }

    fn chart_of_commodities(commodities: &NameSet) -> (r: Result<String, GenError>) {
        let mut chart = String::new();
        chart.append("permit-empty-commodity = true\n");
        chart.append("commodities = [\n");
        push_chart_lines(&mut chart, commodities, "   \"", "\",\n");
        chart.append("]\n");
        assert(chart@ =~= Self::commodities_chart(commodities@)->0);
        Ok(chart)
    }
}

impl AuditTxnGenerator for Tackler {
    open spec fn audit_text(set: SetSize, ts: Civil, index: u32, stamp: Seq<char>, uuid: Seq<char>) -> Seq<
        char,
    > {
        header_text(stamp, " (#"@, ") '"@, ""@, set, index) + "  # uuid: "@ + uuid + "\n"@
            + postings_text(
            expenses_account(false, ts),
            ts.day,
            Seq::empty(),
            assets_account(false, ts),
        )
    }

    open spec fn audit_accounts(ts: Civil) -> Seq<Seq<char>> {
        seq![assets_account(false, ts), expenses_account(false, ts)]
    }

    fn audit_txn(set: &SetSize, ts: &TxnTime, index: u32) -> (r: Result<
        (String, TxnAccComm),
        GenError,
    >) {
        let stamp = match strtime_format("%Y-%m-%dT%H:%M:%S%.f%:z", ts) {
            Some(stamp) => stamp,
            None => {
                return Err(time_format_error());
            },
        };
        let uuid = match get_txn_uuid(set, index, ts, Some("audit")) {
            Ok(uuid) => uuid,
            Err(e) => {
                return Err(e);
            },
        };
        Ok(Tackler::audit_txn_with(set, ts, index, stamp.as_str(), uuid.as_str()))
    }
}

impl PlainTxnGenerator for Tackler {
    open spec fn plain_text(set: SetSize, ts: Civil, index: u32) -> Seq<char> {
        header_text(date_text(ts, "-"@), " (#"@, ") '"@, ""@, set, index) + postings_text(
            expenses_account(false, ts),
            ts.day,
            Seq::empty(),
            assets_account(false, ts),
        )
    }

    fn plain_txn(set: &SetSize, ts: &TxnTime, index: u32) -> (r: Result<String, GenError>) {
        let assets_acc = assets_account_name(false, ts);
        let expenses_acc = expenses_account_name(false, ts);
        let date = date_of(ts, "-");
        let mut txn = String::new();
        push_header(&mut txn, date.as_str(), " (#", ") '", "", set, index);
        push_postings(&mut txn, expenses_acc.as_str(), ts.day(), None, assets_acc.as_str());
        assert(txn@ =~= Self::plain_text(*set, ts@, index));
        Ok(txn)
    }
}

impl CommodityTxnGenerator for Tackler {
    open spec fn commodity_txn_text(set: SetSize, ts: Civil, index: u32) -> Seq<char> {
        header_text(date_text(ts, "-"@), " (#"@, ") '"@, ""@, set, index) + postings_text(
            expenses_account(false, ts),
            ts.day,
            " "@ + commodity_code(ts.day),
            assets_account(false, ts),
        )
    }

    open spec fn commodity_accounts(ts: Civil) -> Seq<Seq<char>> {
        seq![assets_account(false, ts), expenses_account(false, ts)]
    }

    fn commodity_txn(set: &SetSize, ts: &TxnTime, index: u32) -> (r: Result<
        (String, TxnAccComm),
        GenError,
    >) {
        let assets_acc = assets_account_name(false, ts);
        let expenses_acc = expenses_account_name(false, ts);
        let commodity = commodity_name(ts);
        let date = date_of(ts, "-");
        let mut txn = String::new();
        push_header(&mut txn, date.as_str(), " (#", ") '", "", set, index);
        push_postings(
            &mut txn,
            expenses_acc.as_str(),
            ts.day(),
            Some(commodity),
            assets_acc.as_str(),
        );
        assert(txn@ =~= Self::commodity_txn_text(*set, ts@, index));
        Ok((txn, references(assets_acc, expenses_acc, Some(commodity))))
    }
}

impl Tackler {
    /// The audited transaction, given the time as it stands at its head
    /// and its identifier.
    pub fn audit_txn_with(set: &SetSize, ts: &TxnTime, index: u32, stamp: &str, uuid: &str) -> (txn: (
        String,
        TxnAccComm,
    ))
        ensures
            txn.0@ == Self::audit_text(*set, ts@, index, stamp@, uuid@),
            txn.1.account_texts() == Self::audit_accounts(ts@),
            txn.1.commodity_texts() == Seq::<Seq<char>>::empty(),
    {
        let assets_acc = assets_account_name(false, ts);
        let expenses_acc = expenses_account_name(false, ts);
        let mut txn = String::new();
        push_header(&mut txn, stamp, " (#", ") '", "", set, index);
        txn.append("  # uuid: ");
        txn.append(uuid);
        txn.append("\n");
        push_postings(&mut txn, expenses_acc.as_str(), ts.day(), None, assets_acc.as_str());
        assert(txn@ =~= Self::audit_text(*set, ts@, index, stamp@, uuid@));
        (txn, references(assets_acc, expenses_acc, None))
    }

    /// The configuration with which Tackler reads the set. In strict mode
    /// it names the charts of the set.
    pub fn config(strict_mode: bool, audit_mode: bool, setup: &JournalSetup) -> (r: Result<
        String,
        GenError,
    >)
        ensures
            r matches Ok(toml) && toml@ == config_text(
                strict_mode,
                audit_mode,
                setup.set_dir_text(),
                setup.txn_set.label_text(),
            ),
    {
        let set_dir = setup.txn_set_dir();
        let accounts_toml = chart_ref_of(strict_mode, set_dir.as_str(), "accounts");
        let commodities_toml = chart_ref_of(strict_mode, set_dir.as_str(), "commodities");
        let mut toml = String::new();
        toml.append("#\n[kernel]\nstrict = ");
        toml.append(bool_str(strict_mode));
        toml.append("\naudit = { mode = ");
        toml.append(bool_str(audit_mode));
        toml.append(", hash = \"SHA-256\" }\ntimestamp = { default-time = 00:00:00, timezone = { name = \"UTC\" } }\n\n[kernel.input]\nstorage = \"fs\"\nfs  = { path = \"");
        toml.append(set_dir.as_str());
        toml.append("\",      dir = \"txns\", suffix = \"txn\" }\ngit = { repo = \"");
        toml.append(set_dir.as_str());
        toml.append("/.git\", dir = \"txns\", suffix = \"txn\", ref = \"main\" }\n\n[transaction]\naccounts    = { path = \"");
        toml.append(accounts_toml.as_str());
        toml.append("\" }\ncommodities = { path = \"");
        toml.append(commodities_toml.as_str());
        toml.append("\" }\ntags        = { path = \"none\" }\n\n[report]\nreport-timezone = \"UTC\"\nscale = { min = 2, max = 7 }\naccounts = [ ]\ntargets = [ \"balance\" ]\n\nbalance       = { title = \"Tackler: ");
        toml.append(setup.txn_set.label());
        toml.append(" Balance Report\", type = \"flat\" }\nbalance-group = { title = \"Tackler: ");
        toml.append(setup.txn_set.label());
        toml.append(" Balance Group Report\", type = \"flat\", group-by = \"month\" }\nregister      = { title = \"Tackler: ");
        toml.append(setup.txn_set.label());
        toml.append(" Register Report\" }\n\n[export]\ntargets = [ ]\nequity = { accounts = [ \"Assets(:.*)?\", ], equity-account = \"Equity:Balance\" }\n");
        assert(toml@ =~= config_text(
            strict_mode,
            audit_mode,
            setup.set_dir_text(),
            setup.txn_set.label_text(),
        ));
        Ok(toml)
    }
}

} // verus!
