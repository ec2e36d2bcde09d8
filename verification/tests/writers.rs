use jiff::Zoned;
use pta_generator::error::ErrorKind;
use pta_generator::setup::{JournalFlavor, SetSize, ShardType};
use pta_generator::time::TxnTime;
use pta_generator::writers::{JournalWriter, Target};
use std::path::Path;

fn txn_time(zoned: &Zoned) -> TxnTime {
    TxnTime::new(
        zoned.year(),
        zoned.month() as u8,
        zoned.day() as u8,
        zoned.hour() as u8,
        zoned.minute() as u8,
        zoned.second() as u8,
        zoned.subsec_nanosecond() as u32,
        zoned.offset().seconds(),
    )
    .unwrap()
}

#[test]
fn test_set_dir() {
    let base_path = Path::new("target/cbc1a015-a250-4041-ba81-21a26a414a4b");
    let base = base_path.to_str().unwrap();

    // Test for ShardType::Single
    let writer_single = JournalWriter::try_new(JournalFlavor::Ledger, base, SetSize::Sz1e3, ShardType::Single, false).unwrap(/*:test:*/);
    assert_eq!(
        Path::new(&writer_single.setup.txn_set_path()),
        base_path.join("set-1e3-single")
    );

    // Test for ShardType::Month
    let writer_month = JournalWriter::try_new(JournalFlavor::Tackler, base, SetSize::Sz1e5, ShardType::Month, false).unwrap(/*:test:*/);
    assert_eq!(
        Path::new(&writer_month.setup.txn_set_path()),
        base_path.join("set-1e5-month")
    );

    // Test for ShardType::Txn
    let writer_txn = JournalWriter::try_new(JournalFlavor::Tackler, base, SetSize::Sz1e6, ShardType::Txn, false).unwrap(/*:test:*/);
    assert_eq!(
        Path::new(&writer_txn.setup.txn_set_path()),
        base_path.join("set-1e6-txn")
    );
}

#[test]
fn test_journal_path() {
    let base_path = Path::new("target/746c112a-b6ad-44f4-b8f2-f2bb92953630");
    let base = base_path.to_str().unwrap();
    let ts: Zoned = ("2025-04-12T12:34:56+00:00[UTC]")
        .parse()
        .expect("Failed to parse timestamp");
    let ts = txn_time(&ts);

    // Test for ShardType::Single
    let writer_single = JournalWriter::try_new(JournalFlavor::Ledger, base, SetSize::Sz1e3, ShardType::Single, false).unwrap(/*:test:*/);
    let (dir_single, path_single) = writer_single.setup.journal_path(&ts, 0).unwrap();
    assert_eq!(Path::new(&dir_single), base_path.join("set-1e3-single/txns"));
    assert_eq!(
        Path::new(&path_single),
        base_path.join("set-1e3-single/txns/1e3.journal")
    );

    // Test for ShardType::Month
    let writer_month = JournalWriter::try_new(JournalFlavor::Tackler, base, SetSize::Sz1e5, ShardType::Month, false).unwrap(/*:test:*/);
    let (dir_month, path_month) = writer_month.setup.journal_path(&ts, 0).unwrap();
    assert_eq!(Path::new(&dir_month), base_path.join("set-1e5-month/txns"));
    assert_eq!(
        Path::new(&path_month),
        base_path.join("set-1e5-month/txns/2025-04.txn")
    );

    // Test for ShardType::Txn
    let writer_txn = JournalWriter::try_new(JournalFlavor::Tackler, base, SetSize::Sz1e6, ShardType::Txn, false).unwrap(/*:test:*/);
    let (dir_txn, path_txn) = writer_txn.setup.journal_path(&ts, 333).unwrap();
    assert_eq!(Path::new(&dir_txn), base_path.join("set-1e6-txn/txns/2025/04/12"));
    assert_eq!(
        Path::new(&path_txn),
        base_path.join("set-1e6-txn/txns/2025/04/12/20250412T123456-333.txn")
    );
}

#[test]
fn journal_paths_as_text() {
    let ts = TxnTime::new(2025, 4, 12, 12, 34, 56, 0, 0).unwrap();
    let tackler =
        JournalWriter::try_new(JournalFlavor::Tackler, "out", SetSize::Sz1e3, ShardType::Single, true)
            .unwrap();
    assert_eq!(
        tackler.setup.journal_path(&ts, 5).unwrap(),
        ("out/set-1e3-single/txns".to_string(), "out/set-1e3-single/txns/1e3.txn".to_string())
    );
    let beancount = JournalWriter::try_new(
        JournalFlavor::Beancount,
        "out",
        SetSize::Sz1e3,
        ShardType::Single,
        false,
    )
    .unwrap();
    assert_eq!(
        beancount.setup.journal_path(&ts, 5).unwrap().1,
        "out/set-1e3-single/txns/1e3.beancount"
    );
    let txn =
        JournalWriter::try_new(JournalFlavor::Tackler, "out", SetSize::Sz1e3, ShardType::Txn, false)
            .unwrap();
    assert_eq!(
        txn.setup.journal_path_with(&ts, 7, "STAMP"),
        (
            "out/set-1e3-txn/txns/2025/04/12".to_string(),
            "out/set-1e3-txn/txns/2025/04/12/STAMP-7.txn".to_string()
        )
    );
    // The name of a transaction's own file has the time as it is read at
    // the offset.
    let east = TxnTime::new(2025, 1, 2, 3, 4, 5, 999, 3600).unwrap();
    assert_eq!(
        txn.setup.journal_path(&east, 1).unwrap().1,
        "out/set-1e3-txn/txns/2025/01/02/20250102T030405-1.txn"
    );
}

#[test]
fn an_existing_target_is_a_conflict_for_sharded_sets() {
    for shard in [ShardType::Month, ShardType::Txn] {
        let err = JournalWriter::try_new(JournalFlavor::Tackler, "out", SetSize::Sz1e2, shard, true)
            .unwrap_err();
        assert_eq!(err.kind, ErrorKind::PathConflict);
    }
    let err = JournalWriter::try_new(
        JournalFlavor::Tackler,
        "out",
        SetSize::Sz1e2,
        ShardType::Month,
        true,
    )
    .unwrap_err();
    assert_eq!(err.message, "Target path already exists: 'out/set-1e2-month'");
    // A single journal can stand in a directory that is there; its file is
    // still created and never written over.
    assert!(JournalWriter::try_new(
        JournalFlavor::Tackler,
        "out",
        SetSize::Sz1e2,
        ShardType::Single,
        true
    )
    .is_ok());
    // The setup is checked before the target.
    let err = JournalWriter::try_new(
        JournalFlavor::Ledger,
        "out",
        SetSize::Sz1e2,
        ShardType::Month,
        true,
    )
    .unwrap_err();
    assert_eq!(err.kind, ErrorKind::IncompatibleConfiguration);
}

#[test]
fn single_journal_is_created_once() {
    let mut writer =
        JournalWriter::try_new(JournalFlavor::Ledger, "out", SetSize::Sz1e1, ShardType::Single, false)
            .unwrap();
    let first = TxnTime::new(2024, 1, 1, 0, 0, 0, 0, 0).unwrap();
    let second = TxnTime::new(2025, 6, 1, 0, 0, 0, 0, 0).unwrap();
    assert_eq!(
        writer.journal_writer(&first, 1).unwrap(),
        Target::Create {
            dir: "out/set-1e1-single/txns".to_string(),
            path: "out/set-1e1-single/txns/1e1.journal".to_string(),
            keep: Some(0),
        }
    );
    assert_eq!(writer.journal_writer(&second, 2).unwrap(), Target::Append { slot: 0 });
    assert_eq!(writer.journal_writer(&first, 3).unwrap(), Target::Append { slot: 0 });
}

#[test]
fn month_journals_are_created_once_each() {
    let mut writer =
        JournalWriter::try_new(JournalFlavor::Tackler, "out", SetSize::Sz1e1, ShardType::Month, false)
            .unwrap();
    let jan = TxnTime::new(2024, 1, 31, 0, 0, 0, 0, 0).unwrap();
    let dec = TxnTime::new(2024, 12, 1, 0, 0, 0, 0, 0).unwrap();
    assert_eq!(
        writer.journal_writer(&jan, 1).unwrap(),
        Target::Create {
            dir: "out/set-1e1-month/txns".to_string(),
            path: "out/set-1e1-month/txns/2024-01.txn".to_string(),
            keep: Some(0),
        }
    );
    assert_eq!(
        writer.journal_writer(&dec, 2).unwrap(),
        Target::Create {
            dir: "out/set-1e1-month/txns".to_string(),
            path: "out/set-1e1-month/txns/2024-12.txn".to_string(),
            keep: Some(11),
        }
    );
    assert_eq!(writer.journal_writer(&jan, 3).unwrap(), Target::Append { slot: 0 });
    assert_eq!(writer.journal_writer(&dec, 4).unwrap(), Target::Append { slot: 11 });
    // A month of a later year goes to the file that is open for the month.
    let next_jan = TxnTime::new(2025, 1, 1, 0, 0, 0, 0, 0).unwrap();
    assert_eq!(writer.journal_writer(&next_jan, 5).unwrap(), Target::Append { slot: 0 });
}

#[test]
fn every_transaction_file_is_created_and_closed() {
    let mut writer =
        JournalWriter::try_new(JournalFlavor::Tackler, "out", SetSize::Sz1e1, ShardType::Txn, false)
            .unwrap();
    let ts = TxnTime::new(2024, 1, 31, 1, 2, 3, 0, 0).unwrap();
    for idx in 1..=3u32 {
        assert_eq!(
            writer.journal_writer(&ts, idx).unwrap(),
            Target::Create {
                dir: "out/set-1e1-txn/txns/2024/01/31".to_string(),
                path: format!("out/set-1e1-txn/txns/2024/01/31/20240131T010203-{}.txn", idx),
                keep: None,
            }
        );
    }
    assert_eq!(writer.writers, [false; 12]);
}

#[test]
fn write_txn_hands_the_text_on() {
    let mut writer =
        JournalWriter::try_new(JournalFlavor::Tackler, "out", SetSize::Sz1e1, ShardType::Single, false)
            .unwrap();
    let ts = TxnTime::new(2024, 1, 31, 1, 2, 3, 0, 0).unwrap();
    let op = writer.write_txn(&ts, 1, "first").unwrap();
    assert_eq!(op.text, "first");
    assert!(matches!(op.target, Target::Create { keep: Some(0), .. }));
    let op = writer.write_txn(&ts, 2, "second").unwrap();
    assert_eq!(op.text, "second");
    assert_eq!(op.target, Target::Append { slot: 0 });
}

#[test]
fn closing_files_are_created() {
    let mut writer =
        JournalWriter::try_new(JournalFlavor::Tackler, "out", SetSize::Sz1e1, ShardType::Single, false)
            .unwrap();
    let op = writer.write_chart_of_accounts("A");
    assert_eq!(op.text, "A");
    assert_eq!(
        op.target,
        Target::Create {
            dir: "out/set-1e1-single/conf".to_string(),
            path: "out/set-1e1-single/conf/accounts.toml".to_string(),
            keep: None,
        }
    );
    let op = writer.write_chart_of_commodities("C");
    assert_eq!(op.text, "C");
    assert_eq!(
        op.target,
        Target::Create {
            dir: "out/set-1e1-single/conf".to_string(),
            path: "out/set-1e1-single/conf/commodities.toml".to_string(),
            keep: None,
        }
    );
    let op = writer.write_config("T");
    assert_eq!(op.text, "T");
    assert_eq!(
        op.target,
        Target::Create {
            dir: "out".to_string(),
            path: "out/set-1e1-single.toml".to_string(),
            keep: None,
        }
    );
    assert_eq!(writer.writers, [false; 12]);
}

#[test]
fn a_path_is_given_where_the_time_can_be_written() {
    // The last second of the calendar, read far west of UTC, falls after
    // the last instant that can be held.
    let late = TxnTime::new(9999, 12, 31, 23, 59, 59, 0, -93_599).unwrap();
    let mut txn =
        JournalWriter::try_new(JournalFlavor::Tackler, "out", SetSize::Sz1e1, ShardType::Txn, false)
            .unwrap();
    let err = txn.setup.journal_path(&late, 1).unwrap_err();
    assert_eq!(err.kind, ErrorKind::InvalidArgument);
    assert_eq!(err.message, "Failed to format timestamp");
    assert_eq!(txn.journal_writer(&late, 1).unwrap_err().kind, ErrorKind::InvalidArgument);
    assert_eq!(txn.write_txn(&late, 1, "text").unwrap_err().kind, ErrorKind::InvalidArgument);
    assert_eq!(txn.writers, [false; 12]);
    // The journals that have no time in their names are not concerned.
    let mut month =
        JournalWriter::try_new(JournalFlavor::Tackler, "out", SetSize::Sz1e1, ShardType::Month, false)
            .unwrap();
    assert_eq!(
        month.setup.journal_path(&late, 1).unwrap().1,
        "out/set-1e1-month/txns/9999-12.txn"
    );
    assert!(matches!(
        month.journal_writer(&late, 1).unwrap(),
        Target::Create { keep: Some(11), .. }
    ));
    let single =
        JournalWriter::try_new(JournalFlavor::Ledger, "out", SetSize::Sz1e1, ShardType::Single, false)
            .unwrap();
    assert!(single.setup.journal_path(&late, 1).is_ok());
}
