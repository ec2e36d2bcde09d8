use jiff::tz::TimeZone;
use jiff::Timestamp;
use pta_generator::setup::SetSize;
use pta_generator::time::TxnTime;
use pta_generator::txn_uuid::{get_txn_uuid, txn_uuid_at, uuid_source};
use uuid::Uuid;

fn utc_time(ts: Timestamp) -> TxnTime {
    let zoned = ts.to_zoned(TimeZone::UTC);
    TxnTime::new(
        zoned.year(),
        zoned.month() as u8,
        zoned.day() as u8,
        zoned.hour() as u8,
        zoned.minute() as u8,
        zoned.second() as u8,
        zoned.subsec_nanosecond() as u32,
        zoned.offset().seconds(),
    )
    .unwrap()
}

#[test]
fn test_v5_uuid() {
    assert_eq!(
        "94942e79-0153-53d1-9b12-a13f788cbaf1",
        Uuid::new_v5(
            &Uuid::NAMESPACE_URL,
            b"pta-generator:/1e3/1/2024-01-02T00:01:02Z"
        )
        .to_string()
    );

    assert_eq!(
        "eed4b0e3-cd5e-5a31-91ee-31c2e65ddb12",
        Uuid::new_v5(
            &Uuid::NAMESPACE_URL,
            b"pta-generator:/1e3/999/2024-12-31T23:58:00Z"
        )
        .to_string()
    );

    assert_eq!(
        "4a039481-bf0d-5428-8771-d1a771649037",
        Uuid::new_v5(
            &Uuid::NAMESPACE_URL,
            b"pta-generator:/1e6/1/2024-01-02T00:01:02Z"
        )
        .to_string()
    );

    assert_eq!(
        "8e43c795-8fb1-552e-9dde-eae36f233676",
        Uuid::new_v5(
            &Uuid::NAMESPACE_URL,
            b"pta-generator:/1e3/999/2024-12-31T23:58:00Z/audit"
        )
        .to_string()
    );
}

#[test]
fn test_get_txn_uuid() {
    let tests = vec![
        ("94942e79-0153-53d1-9b12-a13f788cbaf1", SetSize::Sz1e3, 1, "2024-01-02T00:01:02Z", None),
        ("eed4b0e3-cd5e-5a31-91ee-31c2e65ddb12", SetSize::Sz1e3, 999, "2024-12-31T23:58:00Z", None),
        ("4a039481-bf0d-5428-8771-d1a771649037", SetSize::Sz1e6, 1, "2024-01-02T00:01:02Z", None),
        ("5e2bae5f-b79c-5515-a617-e53b955209b3", SetSize::Sz1e6, 999, "2024-12-31T23:58:00Z", None),
        ("e36e59d4-6e1d-5685-8c53-7f7ef8254861", SetSize::Sz1e3, 1, "2024-01-02T00:01:02Z", Some("plain")),
        ("8e43c795-8fb1-552e-9dde-eae36f233676", SetSize::Sz1e3, 999, "2024-12-31T23:58:00Z", Some("audit")),
    ];

    for test in tests {
        let uuid = get_txn_uuid(&test.1, test.2, &utc_time(test.3.parse().unwrap()), test.4).unwrap();
        assert_eq!(test.0, &uuid);
    }
}

#[test]
fn uuid_source_is_the_url_of_the_transaction() {
    assert_eq!(
        uuid_source(&SetSize::Sz1e3, 999, "2024-12-31T23:58:00Z", Some("audit")),
        "pta-generator:/1e3/999/2024-12-31T23:58:00Z/audit"
    );
    assert_eq!(
        uuid_source(&SetSize::Sz1e6, 1, "2024-01-02T00:01:02Z", None),
        "pta-generator:/1e6/1/2024-01-02T00:01:02Z"
    );
    assert_eq!(uuid_source(&SetSize::Sz1e1, 0, "", Some("")), "pta-generator:/1e1/0//");
    assert_eq!(
        uuid_source(&SetSize::Sz1e1, u32::MAX, "t", None),
        "pta-generator:/1e1/4294967295/t"
    );
}

#[test]
fn uuid_of_a_given_instant() {
    assert_eq!(
        txn_uuid_at(&SetSize::Sz1e3, 999, "2024-12-31T23:58:00Z", Some("audit")),
        "8e43c795-8fb1-552e-9dde-eae36f233676"
    );
    assert_eq!(
        txn_uuid_at(&SetSize::Sz1e3, 1, "2024-01-02T00:01:02Z", None),
        "94942e79-0153-53d1-9b12-a13f788cbaf1"
    );
}

#[test]
fn uuid_changes_with_every_part() {
    let time = TxnTime::new(2024, 12, 31, 23, 58, 0, 0, 0).unwrap();
    let base = get_txn_uuid(&SetSize::Sz1e3, 999, &time, Some("audit")).unwrap();
    assert_eq!(base, "8e43c795-8fb1-552e-9dde-eae36f233676");
    assert_eq!(base, get_txn_uuid(&SetSize::Sz1e3, 999, &time, Some("audit")).unwrap());
    assert_ne!(base, get_txn_uuid(&SetSize::Sz1e4, 999, &time, Some("audit")).unwrap());
    assert_ne!(base, get_txn_uuid(&SetSize::Sz1e3, 998, &time, Some("audit")).unwrap());
    let other = TxnTime::new(2024, 12, 31, 23, 58, 1, 0, 0).unwrap();
    assert_ne!(base, get_txn_uuid(&SetSize::Sz1e3, 999, &other, Some("audit")).unwrap());
    assert_ne!(base, get_txn_uuid(&SetSize::Sz1e3, 999, &time, Some("plain")).unwrap());
    assert_ne!(base, get_txn_uuid(&SetSize::Sz1e3, 999, &time, None).unwrap());
}

#[test]
fn uuid_is_that_of_the_instant() {
    // The same instant, read at two offsets.
    let utc = TxnTime::new(2024, 1, 2, 0, 1, 2, 0, 0).unwrap();
    let east = TxnTime::new(2024, 1, 2, 2, 1, 2, 0, 7200).unwrap();
    let west = TxnTime::new(2024, 1, 1, 19, 1, 2, 0, -18_000).unwrap();
    let id = get_txn_uuid(&SetSize::Sz1e3, 1, &utc, None).unwrap();
    assert_eq!(id, "94942e79-0153-53d1-9b12-a13f788cbaf1");
    assert_eq!(get_txn_uuid(&SetSize::Sz1e3, 1, &east, None).unwrap(), id);
    assert_eq!(get_txn_uuid(&SetSize::Sz1e3, 1, &west, None).unwrap(), id);
}

#[test]
fn an_identifier_is_given_where_the_instant_can_be_written() {
    let late = TxnTime::new(9999, 12, 31, 23, 59, 59, 0, -93_599).unwrap();
    let err = get_txn_uuid(&SetSize::Sz1e3, 1, &late, Some("audit")).unwrap_err();
    assert_eq!(err.kind, pta_generator::error::ErrorKind::InvalidArgument);
    assert_eq!(err.message, "Failed to format timestamp");
    let early = TxnTime::new(-9999, 1, 1, 0, 0, 0, 0, 93_599).unwrap();
    assert!(get_txn_uuid(&SetSize::Sz1e3, 1, &early, None).is_err());
    let first = TxnTime::new(-9999, 1, 3, 0, 0, 0, 0, 0).unwrap();
    assert!(get_txn_uuid(&SetSize::Sz1e3, 1, &first, None).is_ok());
    let last = TxnTime::new(9999, 12, 29, 0, 0, 0, 0, 0).unwrap();
    assert!(get_txn_uuid(&SetSize::Sz1e3, 1, &last, None).is_ok());
}
