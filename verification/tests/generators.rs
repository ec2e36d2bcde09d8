use jiff::tz::TimeZone;
use jiff::{Timestamp, Zoned};
use pta_generator::error::ErrorKind;
use pta_generator::generators::beancount::Beancount;
use pta_generator::generators::ledger::Ledger;
use pta_generator::generators::tackler::Tackler;
use pta_generator::generators::{
    commodity_name, AuditTxnGenerator, ChartOfAccGenerator, ChartOfCommGenerator,
    CommodityTxnGenerator, PlainTxnGenerator,
};
use pta_generator::names::NameSet;
use pta_generator::setup::{JournalFlavor, JournalSetup, SetSize, ShardType};
use pta_generator::time::TxnTime;

fn txn_time(zoned: &Zoned) -> TxnTime {
    TxnTime::new(
        zoned.year(),
        zoned.month() as u8,
        zoned.day() as u8,
        zoned.hour() as u8,
        zoned.minute() as u8,
        zoned.second() as u8,
        zoned.subsec_nanosecond() as u32,
        zoned.offset().seconds(),
    )
    .unwrap()
}

#[test]
fn generators_test_commodity() {
    let ts: Timestamp = "2024-12-01T23:58:00Z".parse().unwrap();
    assert_eq!(commodity_name(&txn_time(&ts.to_zoned(TimeZone::UTC))), "CAA");

    let ts: Timestamp = "2024-12-15T23:58:00Z".parse().unwrap();
    assert_eq!(commodity_name(&txn_time(&ts.to_zoned(TimeZone::UTC))), "CCE");

    let ts: Timestamp = "2024-12-31T23:58:00Z".parse().unwrap();
    assert_eq!(commodity_name(&txn_time(&ts.to_zoned(TimeZone::UTC))), "EUR");
}

#[test]
fn commodity_table_by_day_of_month() {
    let table = vec![
        "CAA", "CAB", "CAC", "CAD", "CAE", "CBA", "CBB", "CBC", "CBD", "CBE", "CCA", "CCB", "CCC",
        "CCD", "CCE", "CDA", "CDB", "CDC", "CDD", "CDE", "CEA", "CEB", "CEC", "CED", "CEE", "CFA",
        "CFB", "CFC", "CFD", "CFE", "EUR",
    ];
    assert_eq!(table.len(), 31);
    for day in 1..=31u8 {
        let ts = TxnTime::new(2024, 1, day, 0, 0, 0, 0, 0).unwrap();
        assert_eq!(commodity_name(&ts), table[(day - 1) as usize]);
        let later = TxnTime::new(2025, 7, day, 13, 14, 15, 16, 3600).unwrap();
        assert_eq!(commodity_name(&later), table[(day - 1) as usize]);
    }
}

#[test]
fn ledger_test_plain() {
    let ts: Timestamp = "2024-12-31T23:58:00Z".parse().unwrap();
    let txn =
        Ledger::plain_txn(&SetSize::Sz1e3, &txn_time(&ts.to_zoned(TimeZone::UTC)), 999).unwrap();
    let txn_str = "2024/12/31 (#0000999) 1E3 txn-999
  e:ey2024:em12:ed31  31.0000001
  a:ay2024:am12

";
    assert_eq!(txn, txn_str);
}

#[test]
fn ledger_test_commodity() {
    let ts: Timestamp = "2024-12-31T23:58:00Z".parse().unwrap();
    let txn = Ledger::commodity_txn(&SetSize::Sz1e3, &txn_time(&ts.to_zoned(TimeZone::UTC)), 999)
        .unwrap();
    let txn_str = "2024/12/31 (#0000999) 1E3 txn-999
  Expenses:Ey2024:Em12:Ed31  31.0000001 EUR
  Assets:Ay2024:Am12

";
    assert_eq!(txn.0, txn_str);
    assert_eq!(
        txn.1.accounts,
        vec![
            "Assets:Ay2024:Am12".to_string(),
            "Expenses:Ey2024:Em12:Ed31".to_string()
        ]
    );
    assert_eq!(txn.1.commodities, vec!["EUR".to_string()]);
}

#[test]
fn test_audit() {
    let ts: Timestamp = "2024-12-31T23:58:00Z".parse().unwrap();
    let txn = Tackler::audit_txn(&SetSize::Sz1e3, &txn_time(&ts.to_zoned(TimeZone::UTC)), 999)
        .unwrap();
    let txn_str = "2024-12-31T23:58:00+00:00 (#0000999) '1E3 txn-999
  # uuid: 8e43c795-8fb1-552e-9dde-eae36f233676
  e:ey2024:em12:ed31  31.0000001
  a:ay2024:am12

";
    assert_eq!(txn.0, txn_str);
}

#[test]
fn audit_txn_refers_to_its_accounts() {
    let ts = TxnTime::new(2024, 2, 29, 1, 2, 3, 0, 0).unwrap();
    let txn = Tackler::audit_txn(&SetSize::Sz1e1, &ts, 7).unwrap();
    assert_eq!(
        txn.1.accounts,
        vec!["a:ay2024:am02".to_string(), "e:ey2024:em02:ed29".to_string()]
    );
    assert!(txn.1.commodities.is_empty());
}

#[test]
fn audit_txn_with_offset_and_fraction() {
    // 01:30 at +02:00 is 23:30 of the day before in UTC. The head shows the
    // time as it is read at the offset, the identifier is that of the
    // instant.
    let ts = TxnTime::new(2024, 3, 1, 1, 30, 0, 500_000_000, 7200).unwrap();
    let txn = Tackler::audit_txn(&SetSize::Sz1e2, &ts, 42).unwrap();
    let uuid = uuid::Uuid::new_v5(
        &uuid::Uuid::NAMESPACE_URL,
        b"pta-generator:/1e2/42/2024-02-29T23:30:00.5Z/audit",
    )
    .to_string();
    let expected = format!(
        "2024-03-01T01:30:00.5+02:00 (#0000042) '1E2 txn-42\n  # uuid: {}\n  e:ey2024:em03:ed01  1.0000001\n  a:ay2024:am03\n\n",
        uuid
    );
    assert_eq!(txn.0, expected);
}

#[test]
fn audit_txn_with_given_stamp_and_identifier() {
    let ts = TxnTime::new(2024, 12, 31, 23, 58, 0, 0, 0).unwrap();
    let (txn, refs) = Tackler::audit_txn_with(&SetSize::Sz1e3, &ts, 999, "STAMP", "ID");
    assert_eq!(
        txn,
        "STAMP (#0000999) '1E3 txn-999\n  # uuid: ID\n  e:ey2024:em12:ed31  31.0000001\n  a:ay2024:am12\n\n"
    );
    assert_eq!(refs.accounts, vec!["a:ay2024:am12".to_string(), "e:ey2024:em12:ed31".to_string()]);
    assert!(refs.commodities.is_empty());
}

#[test]
fn audit_txn_out_of_range_is_an_error() {
    // The last instant that a calendar of four-digit years can name, read
    // far west of UTC, falls after the last instant that can be held.
    let ts = TxnTime::new(9999, 12, 31, 23, 59, 59, 0, -93_599).unwrap();
    let err = Tackler::audit_txn(&SetSize::Sz1e1, &ts, 1).unwrap_err();
    assert_eq!(err.kind, ErrorKind::InvalidArgument);
    assert_eq!(err.message, "Failed to format timestamp");
}

#[test]
fn tackler_test_plain() {
    let ts: Timestamp = "2024-12-31T23:58:00Z".parse().unwrap();
    let txn =
        Tackler::plain_txn(&SetSize::Sz1e3, &txn_time(&ts.to_zoned(TimeZone::UTC)), 999).unwrap();
    let txn_str = "2024-12-31 (#0000999) '1E3 txn-999
  e:ey2024:em12:ed31  31.0000001
  a:ay2024:am12

";
    assert_eq!(txn, txn_str);
}

#[test]
fn tackler_test_commodity() {
    let ts: Timestamp = "2024-12-31T23:58:00Z".parse().unwrap();
    let txn = Tackler::commodity_txn(&SetSize::Sz1e3, &txn_time(&ts.to_zoned(TimeZone::UTC)), 999)
        .unwrap();
    let txn_str = "2024-12-31 (#0000999) '1E3 txn-999
  e:ey2024:em12:ed31  31.0000001 EUR
  a:ay2024:am12

";
    assert_eq!(txn.0, txn_str);
    assert_eq!(
        txn.1.accounts,
        vec![
            "a:ay2024:am12".to_string(),
            "e:ey2024:em12:ed31".to_string()
        ]
    );
    assert_eq!(txn.1.commodities, vec!["EUR".to_string()]);
}

#[test]
fn beancount_commodity_txn() {
    let ts = TxnTime::new(2024, 1, 5, 0, 0, 0, 0, 0).unwrap();
    let txn = Beancount::commodity_txn(&SetSize::Sz1e6, &ts, 1_000_000).unwrap();
    assert_eq!(
        txn.0,
        "2024-01-05 * \"(#1000000) 1E6 txn-1000000\"\n  Expenses:Ey2024:Em01:Ed05  5.0000001 CAE\n  Assets:Ay2024:Am01\n\n"
    );
    assert_eq!(
        txn.1.accounts,
        vec!["Assets:Ay2024:Am01".to_string(), "Expenses:Ey2024:Em01:Ed05".to_string()]
    );
    assert_eq!(txn.1.commodities, vec!["CAE".to_string()]);
}

#[test]
fn numbers_are_padded_to_their_width() {
    let ts = TxnTime::new(7, 3, 9, 0, 0, 0, 0, 0).unwrap();
    let txn = Tackler::plain_txn(&SetSize::Sz1e1, &ts, 1).unwrap();
    assert_eq!(
        txn,
        "0007-03-09 (#0000001) '1E1 txn-1\n  e:ey0007:em03:ed09  9.0000001\n  a:ay0007:am03\n\n"
    );
    // A number that is wider than its columns is written out in full.
    let txn = Ledger::plain_txn(&SetSize::Sz1e1, &ts, 4_000_000_000).unwrap();
    assert_eq!(
        txn,
        "0007/03/09 (#4000000000) 1E1 txn-4000000000\n  e:ey0007:em03:ed09  9.0000001\n  a:ay0007:am03\n\n"
    );
    // The fill goes in front of the sign.
    let ts = TxnTime::new(-5, 1, 1, 0, 0, 0, 0, 0).unwrap();
    let txn = Tackler::plain_txn(&SetSize::Sz1e1, &ts, 1).unwrap();
    assert_eq!(
        txn,
        "00-5-01-01 (#0000001) '1E1 txn-1\n  e:ey00-5:em01:ed01  1.0000001\n  a:ay00-5:am01\n\n"
    );
}

#[test]
fn rendering_is_repeatable() {
    let ts = TxnTime::new(2024, 6, 15, 12, 0, 0, 0, 0).unwrap();
    for index in [1u32, 2, 500, 1000] {
        assert_eq!(
            Tackler::audit_txn(&SetSize::Sz1e3, &ts, index).unwrap().0,
            Tackler::audit_txn(&SetSize::Sz1e3, &ts, index).unwrap().0
        );
        assert_eq!(
            Tackler::plain_txn(&SetSize::Sz1e3, &ts, index).unwrap(),
            Tackler::plain_txn(&SetSize::Sz1e3, &ts, index).unwrap()
        );
        assert_eq!(
            Ledger::commodity_txn(&SetSize::Sz1e3, &ts, index).unwrap().0,
            Ledger::commodity_txn(&SetSize::Sz1e3, &ts, index).unwrap().0
        );
    }
}

fn names(list: &[&str]) -> NameSet {
    let mut set = NameSet::new();
    for name in list {
        set.insert(name.to_string());
    }
    set
}

#[test]
fn tackler_charts() {
    let accounts = names(&["e:ey2024:em01:ed02", "a:ay2024:am01", "e:ey2024:em01:ed01", "a:ay2024:am01"]);
    assert_eq!(
        Tackler::chart_of_accounts(&accounts).unwrap(),
        "accounts = [\n   \"a:ay2024:am01\",\n   \"e:ey2024:em01:ed01\",\n   \"e:ey2024:em01:ed02\",\n]\n"
    );
    let commodities = names(&["EUR", "CAA", "EUR", "CAB", "CAA"]);
    assert_eq!(
        Tackler::chart_of_commodities(&commodities).unwrap(),
        "permit-empty-commodity = true\ncommodities = [\n   \"CAA\",\n   \"CAB\",\n   \"EUR\",\n]\n"
    );
    assert_eq!(Tackler::chart_of_accounts(&NameSet::new()).unwrap(), "accounts = [\n]\n");
    assert_eq!(
        Tackler::chart_of_commodities(&NameSet::new()).unwrap(),
        "permit-empty-commodity = true\ncommodities = [\n]\n"
    );
}

#[test]
fn ledger_and_beancount_charts() {
    let accounts = names(&["Expenses:Ey2024:Em01:Ed01", "Assets:Ay2024:Am01"]);
    assert_eq!(
        Ledger::chart_of_accounts(&accounts).unwrap(),
        "account Assets:Ay2024:Am01\naccount Expenses:Ey2024:Em01:Ed01\n"
    );
    assert_eq!(
        Beancount::chart_of_accounts(&accounts).unwrap(),
        "1970-01-01 open Assets:Ay2024:Am01\n1970-01-01 open Expenses:Ey2024:Em01:Ed01\n"
    );
    assert_eq!(Ledger::chart_of_accounts(&NameSet::new()).unwrap(), "");
}

#[test]
fn chart_of_commodities_is_tackler_only() {
    let commodities = names(&["EUR"]);
    let err = Ledger::chart_of_commodities(&commodities).unwrap_err();
    assert_eq!(err.kind, ErrorKind::OperationNotSupported);
    let err = Beancount::chart_of_commodities(&commodities).unwrap_err();
    assert_eq!(err.kind, ErrorKind::OperationNotSupported);
}

#[test]
fn tackler_config() {
    let setup =
        JournalSetup::try_new(JournalFlavor::Tackler, "out", SetSize::Sz1e3, ShardType::Month)
            .unwrap();
    let strict = Tackler::config(true, true, &setup).unwrap();
    let expected = r##"#
[kernel]
strict = true
audit = { mode = true, hash = "SHA-256" }
timestamp = { default-time = 00:00:00, timezone = { name = "UTC" } }

[kernel.input]
storage = "fs"
fs  = { path = "set-1e3-month",      dir = "txns", suffix = "txn" }
git = { repo = "set-1e3-month/.git", dir = "txns", suffix = "txn", ref = "main" }

[transaction]
accounts    = { path = "set-1e3-month/conf/accounts.toml" }
commodities = { path = "set-1e3-month/conf/commodities.toml" }
tags        = { path = "none" }

[report]
report-timezone = "UTC"
scale = { min = 2, max = 7 }
accounts = [ ]
targets = [ "balance" ]

balance       = { title = "Tackler: 1e3 (1_000) Balance Report", type = "flat" }
balance-group = { title = "Tackler: 1e3 (1_000) Balance Group Report", type = "flat", group-by = "month" }
register      = { title = "Tackler: 1e3 (1_000) Register Report" }

[export]
targets = [ ]
equity = { accounts = [ "Assets(:.*)?", ], equity-account = "Equity:Balance" }
"##;
    assert_eq!(strict, expected);

    let plain = Tackler::config(false, false, &setup).unwrap();
    assert!(plain.contains("strict = false\n"));
    assert!(plain.contains("audit = { mode = false, hash = \"SHA-256\" }\n"));
    assert!(plain.contains("accounts    = { path = \"none\" }\n"));
    assert!(plain.contains("commodities = { path = \"none\" }\n"));
    let comm = Tackler::config(true, false, &setup).unwrap();
    assert!(comm.contains("strict = true\n"));
    assert!(comm.contains("audit = { mode = false, hash = \"SHA-256\" }\n"));
    assert!(comm.contains("accounts    = { path = \"set-1e3-month/conf/accounts.toml\" }\n"));
}
