//! Rendering transactions and charts, one generator per journal flavor.

use crate::error::GenError;
use crate::names::{lemma_sorted_by_content, sorted, texts, NameSet};
use crate::setup::{time_format_text, SetSize};
use crate::text::{decimal, int_text, push_decimal, push_int, push_zero_padded, zero_padded};
use crate::time::{strtime_text, Civil, TxnTime};
use crate::txn_uuid::txn_uuid_text;
use vstd::prelude::*;
use vstd::string::StringExecFns;

pub mod beancount;
pub mod ledger;
pub mod tackler;

verus! {

/// The accounts and the commodities that one transaction refers to.
#[derive(Debug)]
pub struct TxnAccComm {
    pub accounts: Vec<String>,
    pub commodities: Vec<String>,
}

impl TxnAccComm {
    /// The accounts, as texts.
    pub open spec fn account_texts(&self) -> Seq<Seq<char>> {
        texts(self.accounts@)
    }

    /// The commodities, as texts.
    pub open spec fn commodity_texts(&self) -> Seq<Seq<char>> {
        texts(self.commodities@)
    }
}

/// One of the letters `A` to `F`, counted from 0.
pub open spec fn code_letter(i: int) -> char {
    if i == 0 {
        'A'
    } else if i == 1 {
        'B'
    } else if i == 2 {
        'C'
    } else if i == 3 {
        'D'
    } else if i == 4 {
        'E'
    } else {
        'F'
    }
}

/// The commodity of a day of the month. The days 1 to 30 have the codes
/// `CAA`, `CAB`, .. `CAE`, `CBA`, .. `CFE`: a `C`, then a letter for each
/// five days, then a letter for the day among them. The day 31 has `EUR`.
pub open spec fn commodity_code(day: int) -> Seq<char> {
    if day == 31 {
        seq!['E', 'U', 'R']
    } else {
        seq!['C', code_letter((day - 1) / 5), code_letter((day - 1) % 5)]
    }
}

/// The commodity of the day of the month of a time. It is the same for
/// the same day of every month.
pub fn commodity_name(ts: &TxnTime) -> (name: &'static str)
    ensures
        name@ == commodity_code(ts@.day),
{
    proof {
        reveal_strlit("CAA");
        reveal_strlit("CAB");
        reveal_strlit("CAC");
        reveal_strlit("CAD");
        reveal_strlit("CAE");
        reveal_strlit("CBA");
        reveal_strlit("CBB");
        reveal_strlit("CBC");
        reveal_strlit("CBD");
        reveal_strlit("CBE");
        reveal_strlit("CCA");
        reveal_strlit("CCB");
        reveal_strlit("CCC");
        reveal_strlit("CCD");
        reveal_strlit("CCE");
        reveal_strlit("CDA");
        reveal_strlit("CDB");
        reveal_strlit("CDC");
        reveal_strlit("CDD");
        reveal_strlit("CDE");
        reveal_strlit("CEA");
        reveal_strlit("CEB");
        reveal_strlit("CEC");
        reveal_strlit("CED");
        reveal_strlit("CEE");
        reveal_strlit("CFA");
        reveal_strlit("CFB");
        reveal_strlit("CFC");
        reveal_strlit("CFD");
        reveal_strlit("CFE");
        reveal_strlit("EUR");
    }
    let name = match ts.day() {
        1 => "CAA",
        2 => "CAB",
        3 => "CAC",
        4 => "CAD",
        5 => "CAE",
        6 => "CBA",
        7 => "CBB",
        8 => "CBC",
        9 => "CBD",
        10 => "CBE",
        11 => "CCA",
        12 => "CCB",
        13 => "CCC",
        14 => "CCD",
        15 => "CCE",
        16 => "CDA",
        17 => "CDB",
        18 => "CDC",
        19 => "CDD",
        20 => "CDE",
        21 => "CEA",
        22 => "CEB",
        23 => "CEC",
        24 => "CED",
        25 => "CEE",
        26 => "CFA",
        27 => "CFB",
        28 => "CFC",
        29 => "CFD",
        30 => "CFE",
        _ => "EUR",
    };
    assert(name@ =~= commodity_code(ts@.day));
    name
}

/// A date: year, month and day in four, two and two columns, with `sep`
/// between them.
pub open spec fn date_text(ts: Civil, sep: Seq<char>) -> Seq<char> {
    zero_padded(ts.year, 4) + sep + zero_padded(ts.month, 2) + sep + zero_padded(ts.day, 2)
}

/// The account that pays: one for each month. `long` names it in words
/// with capitals, as Ledger and Beancount have it in journals with
/// commodities.
pub open spec fn assets_account(long: bool, ts: Civil) -> Seq<char> {
    if long {
        "Assets:Ay"@ + zero_padded(ts.year, 4) + ":Am"@ + zero_padded(ts.month, 2)
    } else {
        "a:ay"@ + zero_padded(ts.year, 4) + ":am"@ + zero_padded(ts.month, 2)
    }
}

/// The account that is paid: one for each day.
pub open spec fn expenses_account(long: bool, ts: Civil) -> Seq<char> {
    if long {
        "Expenses:Ey"@ + zero_padded(ts.year, 4) + ":Em"@ + zero_padded(ts.month, 2) + ":Ed"@
            + zero_padded(ts.day, 2)
    } else {
        "e:ey"@ + zero_padded(ts.year, 4) + ":em"@ + zero_padded(ts.month, 2) + ":ed"@
            + zero_padded(ts.day, 2)
    }
}

/// The first line of a transaction: the date as the flavor writes it, the
/// number of the transaction in seven columns, the size of the set in
/// capitals, and `txn-` with the number. `lead`, `mid` and `tail` are what
/// the flavor puts around them.
pub open spec fn header_text(
    date: Seq<char>,
    lead: Seq<char>,
    mid: Seq<char>,
    tail: Seq<char>,
    set: SetSize,
    index: u32,
) -> Seq<char> {
    date + lead + zero_padded(index as int, 7) + mid + set.upper_token() + " txn-"@ + decimal(
        index as nat,
    ) + tail + "\n"@
}

/// The commodity as it follows the amount: nothing, or a blank and the
/// commodity.
pub open spec fn commodity_text(commodity: Option<&str>) -> Seq<char> {
    match commodity {
        Some(c) => " "@ + c@,
        None => Seq::empty(),
    }
}

/// The two postings and the empty line that ends a transaction. The
/// amount is the day of the month and seven decimals; the paying account
/// has no amount.
pub open spec fn postings_text(
    expenses: Seq<char>,
    day: int,
    commodity: Seq<char>,
    assets: Seq<char>,
) -> Seq<char> {
    expenses_posting_text(expenses, day, commodity) + assets_posting_text(assets)
}

/// The lines of a chart: for each name, in order, `before`, the name and
/// `after`.
pub open spec fn chart_lines(names: Seq<Seq<char>>, before: Seq<char>, after: Seq<char>) -> Seq<
    char,
>
    decreases names.len(),
{
    if names.len() == 0 {
        Seq::empty()
    } else {
        chart_lines(names.drop_last(), before, after) + before + names.last() + after
    }
}

/// A chart is decided by which names were referred to: how often a name
/// was referred to, and when, does not show in it.
pub proof fn lemma_chart_by_content(
    a: Seq<Seq<char>>,
    b: Seq<Seq<char>>,
    before: Seq<char>,
    after: Seq<char>,
)
    requires
        sorted(a),
        sorted(b),
        a.to_set() == b.to_set(),
    ensures
        chart_lines(a, before, after) == chart_lines(b, before, after),
{
    lemma_sorted_by_content(a, b);
}

/// The format of the time at the head of an audited transaction.
pub open spec fn audit_stamp_format() -> Seq<char> {
    "%Y-%m-%dT%H:%M:%S%.f%:z"@
}

/// The specifier of the identifiers of audited transactions.
pub open spec fn audit_spec() -> Option<Seq<char>> {
    Some("audit"@)
}

/// What an audited transaction takes from its time: the time as it stands
/// at the head, and the identifier. There is none where one of the two
/// cannot be written out.
pub open spec fn audit_parts(set: SetSize, ts: Civil, index: u32) -> Option<
    (Seq<char>, Seq<char>),
> {
    match (strtime_text(audit_stamp_format(), ts), txn_uuid_text(set, index, ts, audit_spec())) {
        (Some(stamp), Some(uuid)) => Some((stamp, uuid)),
        _ => None,
    }
}

/// Writes a date.
pub fn push_date(out: &mut String, ts: &TxnTime, sep: &str)
    ensures
        final(out)@ == old(out)@ + date_text(ts@, sep@),
{
    push_zero_padded(out, ts.year() as i64, 4);
    out.append(sep);
    push_zero_padded(out, ts.month() as i64, 2);
    out.append(sep);
    push_zero_padded(out, ts.day() as i64, 2);
    assert(out@ =~= old(out)@ + date_text(ts@, sep@));
}

/// The date of a time.
pub fn date_of(ts: &TxnTime, sep: &str) -> (date: String)
    ensures
        date@ == date_text(ts@, sep@),
{
    let mut date = String::new();
    push_date(&mut date, ts, sep);
    assert(date@ =~= date_text(ts@, sep@));
    date
}

/// The name of the account that pays.
pub fn assets_account_name(long: bool, ts: &TxnTime) -> (name: String)
    ensures
        name@ == assets_account(long, ts@),
{
    let mut name = String::new();
    if long {
        name.append("Assets:Ay");
        push_zero_padded(&mut name, ts.year() as i64, 4);
        name.append(":Am");
        push_zero_padded(&mut name, ts.month() as i64, 2);
        assert(name@ =~= assets_account(long, ts@));
    } else {
        name.append("a:ay");
        push_zero_padded(&mut name, ts.year() as i64, 4);
        name.append(":am");
        push_zero_padded(&mut name, ts.month() as i64, 2);
        assert(name@ =~= assets_account(long, ts@));
    }
    name
}

/// The name of the account that is paid.
pub fn expenses_account_name(long: bool, ts: &TxnTime) -> (name: String)
    ensures
        name@ == expenses_account(long, ts@),
{
    let mut name = String::new();
    if long {
        name.append("Expenses:Ey");
        push_zero_padded(&mut name, ts.year() as i64, 4);
        name.append(":Em");
        push_zero_padded(&mut name, ts.month() as i64, 2);
        name.append(":Ed");
        push_zero_padded(&mut name, ts.day() as i64, 2);
        assert(name@ =~= expenses_account(long, ts@));
    } else {
        name.append("e:ey");
        push_zero_padded(&mut name, ts.year() as i64, 4);
        name.append(":em");
        push_zero_padded(&mut name, ts.month() as i64, 2);
        name.append(":ed");
        push_zero_padded(&mut name, ts.day() as i64, 2);
        assert(name@ =~= expenses_account(long, ts@));
    }
    name
}

/// Writes the first line of a transaction.
pub fn push_header(
    out: &mut String,
    date: &str,
    lead: &str,
    mid: &str,
    tail: &str,
    set: &SetSize,
    index: u32,
)
    ensures
        final(out)@ == old(out)@ + header_text(date@, lead@, mid@, tail@, *set, index),
{
    out.append(date);
    out.append(lead);
    push_zero_padded(out, index as i64, 7);
    out.append(mid);
    out.append(set.display_token());
    out.append(" txn-");
    push_decimal(out, index as u64);
    out.append(tail);
    out.append("\n");
    assert(out@ =~= old(out)@ + header_text(date@, lead@, mid@, tail@, *set, index));
}

/// The posting of the paid account: the account, the day of the month as
/// the amount with seven decimals, and the commodity where there is one.
pub open spec fn expenses_posting_text(expenses: Seq<char>, day: int, commodity: Seq<char>) -> Seq<
    char,
> {
    "  "@ + expenses + "  "@ + int_text(day) + ".0000001"@ + commodity + "\n"@
}

/// The posting of the paying account, which has no amount, and the empty
/// line that ends the transaction.
pub open spec fn assets_posting_text(assets: Seq<char>) -> Seq<char> {
    "  "@ + assets + "\n"@ + "\n"@
}

/// Writes the posting of the paid account.
fn push_expenses_posting(out: &mut String, expenses: &str, day: u8, commodity: Option<&str>)
    ensures
        final(out)@ == old(out)@ + expenses_posting_text(
            expenses@,
            day as int,
            commodity_text(commodity),
        ),
{
    let mut line = String::new();
    line.append("  ");
    line.append(expenses);
    line.append("  ");
    push_int(&mut line, day as i64);
    line.append(".0000001");
    let ghost amount = line@;
    assert(amount =~= "  "@ + expenses@ + "  "@ + int_text(day as int) + ".0000001"@);
    match commodity {
        Some(c) => {
            let mut tail = String::new();
            tail.append(" ");
            tail.append(c);
            assert(tail@ =~= commodity_text(commodity));
            line.append(tail.as_str());
        },
        None => {
            assert(line@ =~= amount + commodity_text(commodity));
        },
    }
    line.append("\n");
    out.append(line.as_str());
}

/// Writes the posting of the paying account and the empty line.
fn push_assets_posting(out: &mut String, assets: &str)
    ensures
        final(out)@ == old(out)@ + assets_posting_text(assets@),
{
    let mut line = String::new();
    line.append("  ");
    line.append(assets);
    line.append("\n");
    line.append("\n");
    assert(line@ =~= assets_posting_text(assets@));
    out.append(line.as_str());
}

/// Writes the postings of a transaction and the empty line after them.
pub fn push_postings(
    out: &mut String,
    expenses: &str,
    day: u8,
    commodity: Option<&str>,
    assets: &str,
)
    ensures
        final(out)@ == old(out)@ + postings_text(
            expenses@,
            day as int,
            commodity_text(commodity),
            assets@,
        ),
{
    push_expenses_posting(out, expenses, day, commodity);
    push_assets_posting(out, assets);
    assert(out@ =~= old(out)@ + postings_text(
        expenses@,
        day as int,
        commodity_text(commodity),
        assets@,
    ));
}

/// Writes the lines of a chart: each name of the set once, in order.
pub fn push_chart_lines(out: &mut String, names: &NameSet, before: &str, after: &str)
    ensures
        final(out)@ == old(out)@ + chart_lines(names@, before@, after@),
{
    let n = names.len();
    let mut i: usize = 0;
    assert(names@.take(0) =~= Seq::<Seq<char>>::empty());
    assert(out@ =~= old(out)@ + chart_lines(names@.take(0), before@, after@));
    while i < n
        invariant
            i <= n,
            n == names@.len(),
            out@ == old(out)@ + chart_lines(names@.take(i as int), before@, after@),
        decreases n - i,
    {
        let ghost done = names@.take(i as int);
        let ghost next = names@.take(i + 1);
        out.append(before);
        out.append(names.get(i));
        out.append(after);
        proof {
            assert(next.drop_last() =~= done);
            assert(next.last() == names@[i as int]);
            assert(out@ =~= old(out)@ + chart_lines(next, before@, after@));
        }
        i = i + 1;
    }
    assert(names@.take(n as int) =~= names@);
}

/// The accounts and commodities of a transaction as one value.
pub fn references(assets: String, expenses: String, commodity: Option<&str>) -> (refs: TxnAccComm)
    ensures
        refs.account_texts() == seq![assets@, expenses@],
        refs.commodity_texts() == match commodity {
            Some(c) => seq![c@],
            None => Seq::<Seq<char>>::empty(),
        },
{
    let mut accounts: Vec<String> = Vec::new();
    accounts.push(assets);
    accounts.push(expenses);
    let mut commodities: Vec<String> = Vec::new();
    match commodity {
        Some(c) => {
            commodities.push(c.to_owned());
        },
        None => {},
    }
    let refs = TxnAccComm { accounts, commodities };
    assert(refs.account_texts() =~= seq![assets@, expenses@]);
    assert(refs.commodity_texts() =~= match commodity {
        Some(c) => seq![c@],
        None => Seq::<Seq<char>>::empty(),
    });
    refs
}

/// Renders the chart of accounts of a flavor.
pub trait ChartOfAccGenerator {
    /// The chart of the given accounts.
    spec fn accounts_chart(accounts: Seq<Seq<char>>) -> Seq<char>;

    /// The chart of the accounts of the set: each account once, in order.
    fn chart_of_accounts(accounts: &NameSet) -> (r: Result<String, GenError>)
        ensures
            r matches Ok(chart) && chart@ == Self::accounts_chart(accounts@),
    ;
}

/// Renders the chart of commodities of a flavor.
pub trait ChartOfCommGenerator {
    /// The chart of the given commodities; `None` where the flavor has no
    /// such chart.
    spec fn commodities_chart(commodities: Seq<Seq<char>>) -> Option<Seq<char>>;

    /// The message where the flavor has no such chart.
    spec fn no_commodities_chart_text() -> Seq<char>;

    /// The chart of the commodities of the set: each commodity once, in
    /// order. A flavor without such a chart says so.
    fn chart_of_commodities(commodities: &NameSet) -> (r: Result<String, GenError>)
        ensures
            match r {
                Ok(chart) => Self::commodities_chart(commodities@) == Some(chart@),
                Err(e) => Self::commodities_chart(commodities@) is None && e.is(
                    crate::error::ErrorKind::OperationNotSupported,
                    Self::no_commodities_chart_text(),
                ),
            },
    ;
}

/// Renders transactions that carry a stable identifier.
pub trait AuditTxnGenerator: ChartOfAccGenerator {
    /// The transaction, given the time as the flavor writes it at the head
    /// and the identifier.
    spec fn audit_text(set: SetSize, ts: Civil, index: u32, stamp: Seq<char>, uuid: Seq<char>) -> Seq<
        char,
    >;

    /// The accounts that the transaction refers to.
    spec fn audit_accounts(ts: Civil) -> Seq<Seq<char>>;

    /// The transaction of the given number at the given time, and what it
    /// refers to. There is one exactly where the time and its instant can
    /// be written out.
    fn audit_txn(set: &SetSize, ts: &TxnTime, index: u32) -> (r: Result<
        (String, TxnAccComm),
        GenError,
    >)
        ensures
            match r {
                Ok(txn) => {
                    &&& audit_parts(*set, ts@, index) matches Some(parts)
                    &&& txn.0@ == Self::audit_text(*set, ts@, index, parts.0, parts.1)
                    &&& txn.1.account_texts() == Self::audit_accounts(ts@)
                    &&& txn.1.commodity_texts() == Seq::<Seq<char>>::empty()
                },
                Err(e) => {
                    &&& audit_parts(*set, ts@, index) is None
                    &&& e.is(crate::error::ErrorKind::InvalidArgument, time_format_text())
                },
            },
    ;
}

/// Renders transactions in the simplest form.
pub trait PlainTxnGenerator {
    /// The transaction.
    spec fn plain_text(set: SetSize, ts: Civil, index: u32) -> Seq<char>;

    /// The transaction of the given number at the given time.
    fn plain_txn(set: &SetSize, ts: &TxnTime, index: u32) -> (r: Result<String, GenError>)
        ensures
            r matches Ok(txn) && txn@ == Self::plain_text(*set, ts@, index),
    ;
}

/// Renders transactions whose amounts have a commodity.
pub trait CommodityTxnGenerator: ChartOfAccGenerator + ChartOfCommGenerator {
    /// The transaction.
    spec fn commodity_txn_text(set: SetSize, ts: Civil, index: u32) -> Seq<char>;

    /// The accounts that the transaction refers to, as the flavor names
    /// them: the paying account, then the paid one.
    spec fn commodity_accounts(ts: Civil) -> Seq<Seq<char>>;

    /// The transaction of the given number at the given time, and what it
    /// refers to: the paying account, the paid account, and the commodity
    /// of the day.
    fn commodity_txn(set: &SetSize, ts: &TxnTime, index: u32) -> (r: Result<
        (String, TxnAccComm),
        GenError,
    >)
        ensures
            r matches Ok(txn) && {
                &&& txn.0@ == Self::commodity_txn_text(*set, ts@, index)
                &&& txn.1.account_texts() == Self::commodity_accounts(ts@)
                &&& txn.1.commodity_texts() == seq![commodity_code(ts@.day)]
            },
    ;
}

} // verus!
