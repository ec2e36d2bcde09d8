//! The Ledger flavor: transactions plain and with commodities, and the
//! chart of accounts as `account` directives.

use crate::error::{ErrorKind, GenError};
use crate::generators::{
    assets_account, assets_account_name, chart_lines, commodity_code, commodity_name, date_of,
    date_text, expenses_account, expenses_account_name, header_text, postings_text,
    push_chart_lines, push_header, push_postings, references, ChartOfAccGenerator,
    ChartOfCommGenerator, CommodityTxnGenerator, PlainTxnGenerator, TxnAccComm,
};
use crate::names::NameSet;
use crate::setup::SetSize;
use crate::time::{Civil, TxnTime};
use vstd::prelude::*;

verus! {

/// The generator of Ledger journals.
pub struct Ledger;

impl PlainTxnGenerator for Ledger {
    open spec fn plain_text(set: SetSize, ts: Civil, index: u32) -> Seq<char> {
        header_text(date_text(ts, "/"@), " (#"@, ") "@, ""@, set, index) + postings_text(
            expenses_account(false, ts),
            ts.day,
            Seq::empty(),
            assets_account(false, ts),
        )
    }

    fn plain_txn(set: &SetSize, ts: &TxnTime, index: u32) -> (r: Result<String, GenError>) {
        let assets_acc = assets_account_name(false, ts);
        let expenses_acc = expenses_account_name(false, ts);
        let date = date_of(ts, "/");
        let mut txn = String::new();
        push_header(&mut txn, date.as_str(), " (#", ") ", "", set, index);
        push_postings(&mut txn, expenses_acc.as_str(), ts.day(), None, assets_acc.as_str());
        assert(txn@ =~= Self::plain_text(*set, ts@, index));
        Ok(txn)
    }
}

impl ChartOfAccGenerator for Ledger {
    open spec fn accounts_chart(accounts: Seq<Seq<char>>) -> Seq<char> {
        chart_lines(accounts, "account "@, "\n"@)
    }

    fn chart_of_accounts(accounts: &NameSet) -> (r: Result<String, GenError>) {
        let mut chart = String::new();
        push_chart_lines(&mut chart, accounts, "account ", "\n");
        assert(chart@ =~= Self::accounts_chart(accounts@));
        Ok(chart)
    }
}

impl ChartOfCommGenerator for Ledger {
    open spec fn commodities_chart(commodities: Seq<Seq<char>>) -> Option<Seq<char>> {
        None
    }

    open spec fn no_commodities_chart_text() -> Seq<char> {
        "Chart of commodities is not implemented for ledger"@
    }

    /// Ledger journals have no chart of commodities.
    fn chart_of_commodities(_commodities: &NameSet) -> (r: Result<String, GenError>) {
        Err(
            GenError::new(
                ErrorKind::OperationNotSupported,
                "Chart of commodities is not implemented for ledger".to_owned(),
            ),
        )
    }
}

impl CommodityTxnGenerator for Ledger {
    open spec fn commodity_txn_text(set: SetSize, ts: Civil, index: u32) -> Seq<char> {
        header_text(date_text(ts, "/"@), " (#"@, ") "@, ""@, set, index) + postings_text(
            expenses_account(true, ts),
            ts.day,
            " "@ + commodity_code(ts.day),
            assets_account(true, ts),
        )
    }

    open spec fn commodity_accounts(ts: Civil) -> Seq<Seq<char>> {
        seq![assets_account(true, ts), expenses_account(true, ts)]
    }

    fn commodity_txn(set: &SetSize, ts: &TxnTime, index: u32) -> (r: Result<
        (String, TxnAccComm),
        GenError,
    >) {
        let assets_acc = assets_account_name(true, ts);
        let expenses_acc = expenses_account_name(true, ts);
        let commodity = commodity_name(ts);
        let date = date_of(ts, "/");
        let mut txn = String::new();
        push_header(&mut txn, date.as_str(), " (#", ") ", "", set, index);
        push_postings(
            &mut txn,
            expenses_acc.as_str(),
            ts.day(),
            Some(commodity),
            assets_acc.as_str(),
        );
        assert(txn@ =~= Self::commodity_txn_text(*set, ts@, index));
        Ok((txn, references(assets_acc, expenses_acc, Some(commodity))))
    }
}

} // verus!
