use ali_oss::date::{UtcDateTime, HTTP_DATE_MAX_LEN, MAX_TIMESTAMP, MIN_TIMESTAMP};

#[test]
fn range_is_the_one_of_chrono() {
    assert_eq!(chrono::DateTime::<chrono::Utc>::MAX_UTC.timestamp(), MAX_TIMESTAMP);
    assert_eq!(chrono::DateTime::<chrono::Utc>::MIN_UTC.timestamp(), MIN_TIMESTAMP);
    let samples = [
        (MIN_TIMESTAMP, 0),
        (MIN_TIMESTAMP - 1, 0),
        (MAX_TIMESTAMP, 0),
        (MAX_TIMESTAMP, 999_999_999),
        (MAX_TIMESTAMP, 1_999_999_999),
        (MAX_TIMESTAMP + 1, 0),
        (0, 0),
        (59, 1_000_000_000),
        (58, 1_000_000_000),
        (60, 1_000_000_000),
        (-1, 1_500_000_000),
        (-2, 1_500_000_000),
        (-61, 1_999_999_999),
        (119, 2_000_000_000),
        (i64::MAX, 0),
        (i64::MIN, 0),
        (1_704_067_200, 123),
    ];
    for (secs, nanos) in samples {
        let ours = UtcDateTime::from_timestamp(secs, nanos);
        let theirs = chrono::DateTime::from_timestamp(secs, nanos);
        assert_eq!(ours.is_some(), theirs.is_some(), "{secs} {nanos}");
        if let (Some(ours), Some(theirs)) = (ours, theirs) {
            assert_eq!(ours.timestamp(), theirs.timestamp());
            assert_eq!(ours.timestamp_subsec_nanos(), theirs.timestamp_subsec_nanos());
            assert_eq!(ours.to_http_date(), theirs.format("%a, %d %b %Y %T GMT").to_string());
        }
    }
}

#[test]
fn http_date_text() {
    let date = UtcDateTime::from_timestamp(1_704_067_200, 0).unwrap();
    assert_eq!(date.to_http_date(), "Mon, 01 Jan 2024 00:00:00 GMT");
    assert_eq!(UtcDateTime::from_timestamp(0, 0).unwrap().to_http_date(), "Thu, 01 Jan 1970 00:00:00 GMT");
    assert_eq!(
        UtcDateTime::from_timestamp(1_700_000_000, 999_999_999).unwrap().to_http_date(),
        "Tue, 14 Nov 2023 22:13:20 GMT"
    );
    assert_eq!(UtcDateTime::from_timestamp(-1, 0).unwrap().to_http_date(), "Wed, 31 Dec 1969 23:59:59 GMT");
}

#[test]
fn http_date_text_is_never_longer_than_its_bound() {
    let longest = UtcDateTime::from_timestamp(MAX_TIMESTAMP, 1_999_999_999).unwrap().to_http_date();
    assert_eq!(longest, "Mon, 31 Dec +262142 23:59:60 GMT");
    assert_eq!(longest.chars().count(), HTTP_DATE_MAX_LEN);
    let earliest = UtcDateTime::from_timestamp(MIN_TIMESTAMP, 0).unwrap().to_http_date();
    assert_eq!(earliest, "Thu, 01 Jan -262143 00:00:00 GMT");
    assert_eq!(earliest.chars().count(), HTTP_DATE_MAX_LEN);
    for secs in [-62_167_219_200i64, -62_135_596_800, 0, 253_402_300_799, 253_402_300_800] {
        let text = UtcDateTime::from_timestamp(secs, 0).unwrap().to_http_date();
        assert!(text.chars().count() <= HTTP_DATE_MAX_LEN, "{text}");
        assert!(text.ends_with(" GMT"));
    }
    assert_eq!(
        UtcDateTime::from_timestamp(253_402_300_800, 0).unwrap().to_http_date(),
        "Sat, 01 Jan +10000 00:00:00 GMT"
    );
    assert_eq!(
        UtcDateTime::from_timestamp(-62_167_219_200, 0).unwrap().to_http_date(),
        "Sat, 01 Jan 0000 00:00:00 GMT"
    );
}

#[test]
fn parse_rfc3339() {
    let date = UtcDateTime::parse("2024-01-01T00:00:00.000Z").unwrap();
    assert_eq!((date.timestamp(), date.timestamp_subsec_nanos()), (1_704_067_200, 0));
    let date = UtcDateTime::parse("2023-11-14T22:13:20.5+08:00").unwrap();
    assert_eq!((date.timestamp(), date.timestamp_subsec_nanos()), (1_700_000_000 - 8 * 3600, 500_000_000));
    // The relaxed form: a space for the `T`, spaces between the parts.
    let relaxed = UtcDateTime::parse("2024-01-01 00:00:00Z").unwrap();
    assert_eq!(relaxed.timestamp(), 1_704_067_200);
    let spaced = UtcDateTime::parse("2024-  01-01T00:  00:00Z").unwrap();
    assert_eq!(spaced.timestamp(), 1_704_067_200);
    assert!(UtcDateTime::parse("").is_none());
    assert!(UtcDateTime::parse("yesterday").is_none());
    assert!(UtcDateTime::parse("2024-13-01T00:00:00Z").is_none());
    assert!(UtcDateTime::parse("Mon, 01 Jan 2024 00:00:00 GMT").is_none());
}

#[test]
fn parse_rfc2822() {
    let date = UtcDateTime::parse_from_rfc2822("Mon, 01 Jan 2024 00:00:00 GMT").unwrap();
    assert_eq!((date.timestamp(), date.timestamp_subsec_nanos()), (1_704_067_200, 0));
    let date = UtcDateTime::parse_from_rfc2822("Tue, 1 Jul 2003 10:52:37 +0200").unwrap();
    assert_eq!(date.timestamp(), 1_057_049_557);
    assert!(UtcDateTime::parse_from_rfc2822("2024-01-01T00:00:00Z").is_none());
    assert!(UtcDateTime::parse_from_rfc2822("").is_none());
}
