//! The Beancount flavor: transactions with commodities, and the chart of
//! accounts as `open` directives. A Beancount journal cannot do without
//! its chart of accounts, so the flavor has no plain transactions.

use crate::error::{ErrorKind, GenError};
use crate::generators::{
    assets_account, assets_account_name, chart_lines, commodity_code, commodity_name, date_of,
    date_text, expenses_account, expenses_account_name, header_text, postings_text,
    push_chart_lines, push_header, push_postings, references, ChartOfAccGenerator,
    ChartOfCommGenerator, CommodityTxnGenerator, TxnAccComm,
};
use crate::names::NameSet;
use crate::setup::SetSize;
use crate::time::{Civil, TxnTime};
use vstd::prelude::*;

verus! {

/// The generator of Beancount journals.
pub struct Beancount;

impl ChartOfAccGenerator for Beancount {
    /// Every account is opened on a day before any transaction that a set
    /// can hold.
    open spec fn accounts_chart(accounts: Seq<Seq<char>>) -> Seq<char> {
        chart_lines(accounts, "1970-01-01 open "@, "\n"@)
    }

    fn chart_of_accounts(accounts: &NameSet) -> (r: Result<String, GenError>) {
        let mut chart = String::new();
        push_chart_lines(&mut chart, accounts, "1970-01-01 open ", "\n");
        assert(chart@ =~= Self::accounts_chart(accounts@));
        Ok(chart)
    }
}

impl ChartOfCommGenerator for Beancount {
    open spec fn commodities_chart(commodities: Seq<Seq<char>>) -> Option<Seq<char>> {
        None
    }

    open spec fn no_commodities_chart_text() -> Seq<char> {
        "Chart of commodities is not implemented for beancount"@
    }

    /// Beancount journals have no chart of commodities.
    fn chart_of_commodities(_commodities: &NameSet) -> (r: Result<String, GenError>) {
        Err(
            GenError::new(
                ErrorKind::OperationNotSupported,
                "Chart of commodities is not implemented for beancount".to_owned(),
            ),
        )
    }
}

impl CommodityTxnGenerator for Beancount {
    /// The head is a completed transaction (`*`) whose narration is what
    /// the other flavors have after the date.
    open spec fn commodity_txn_text(set: SetSize, ts: Civil, index: u32) -> Seq<char> {
        header_text(date_text(ts, "-"@), " * \"(#"@, ") "@, "\""@, set, index) + postings_text(
            expenses_account(true, ts),
            ts.day,
            " "@ + commodity_code(ts.day),
            assets_account(true, ts),
        )
    }

    open spec fn commodity_accounts(ts: Civil) -> Seq<Seq<char>> {
        seq![assets_account(true, ts), expenses_account(true, ts)]
    }

    fn commodity_txn(set: &SetSize, ts: &TxnTime, index: u32) -> (r: Result<
        (String, TxnAccComm),
        GenError,
    >) {
        let assets_acc = assets_account_name(true, ts);
        let expenses_acc = expenses_account_name(true, ts);
        let commodity = commodity_name(ts);
        let date = date_of(ts, "-");
        let mut txn = String::new();
        push_header(&mut txn, date.as_str(), " * \"(#", ") ", "\"", set, index);
        push_postings(
            &mut txn,
            expenses_acc.as_str(),
            ts.day(),
            Some(commodity),
            assets_acc.as_str(),
        );
        assert(txn@ =~= Self::commodity_txn_text(*set, ts@, index));
        Ok((txn, references(assets_acc, expenses_acc, Some(commodity))))
    }
}

} // verus!
