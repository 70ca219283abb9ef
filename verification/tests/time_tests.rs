use hermes::time::{parse_date, Timestamp};

#[test]
fn parse_date_reads_rfc2822() {
    assert_eq!(
        parse_date("Wed, 18 Feb 2015 23:16:09 GMT"),
        Some(Timestamp { secs: 1424301369, nanos: 0 })
    );
    assert_eq!(
        parse_date("Wed, 18 Feb 2015 23:16:09 +0100"),
        Some(Timestamp { secs: 1424301369 - 3600, nanos: 0 })
    );
}

#[test]
fn parse_date_falls_back_to_rfc3339() {
    assert_eq!(parse_date("2012-12-12T12:12:12Z"), Some(Timestamp { secs: 1355314332, nanos: 0 }));
    assert_eq!(
        parse_date("2012-12-12 12:12:12.5+00:00"),
        Some(Timestamp { secs: 1355314332, nanos: 500_000_000 })
    );
}

#[test]
fn parse_date_refuses_other_text() {
    assert_eq!(parse_date("yesterday"), None);
    assert_eq!(parse_date(""), None);
}
