use scaleway::Date;

#[test]
fn date_reads_utc() {
    assert_eq!(
        Date::parse("2020-01-01T00:00:00+00:00"),
        Some(Date { seconds: 1577836800, nanos: 0, offset: 0 })
    );
    assert_eq!(
        Date::parse("2018-03-04T05:06:07Z"),
        Some(Date { seconds: 1520139967, nanos: 0, offset: 0 })
    );
}

#[test]
fn date_reads_an_offset_and_a_fraction() {
    assert_eq!(
        Date::parse("2019-06-01T12:30:15.5+02:00"),
        Some(Date { seconds: 1559385015, nanos: 500_000_000, offset: 7200 })
    );
    assert_eq!(
        Date::parse("1969-12-31T18:59:59.000000001-05:00"),
        Some(Date { seconds: -1, nanos: 1, offset: -18000 })
    );
}

#[test]
fn date_refuses_what_is_no_date() {
    assert_eq!(Date::parse(""), None);
    assert_eq!(Date::parse("2020-01-01"), None);
    assert_eq!(Date::parse("2020-13-01T00:00:00Z"), None);
    assert_eq!(Date::parse("2020-01-01T00:00:00"), None);
    assert_eq!(Date::parse("2020-01-01T00:00:00Z trailing"), None);
    assert_eq!(Date::parse("yesterday"), None);
}
