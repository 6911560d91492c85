use curb_adapter::datetime::parse_dt_to_unix;
use curb_adapter::numfmt::{i64_to_dec, u64_to_dec};

#[test]
fn test_parse_dt_to_unix() {
    let dt = "2016/03/05 22:59:18 +0000";
    assert_eq!(parse_dt_to_unix(dt), Some(1457218758));
}

#[test]
fn parse_applies_positive_offset() {
    // One hour east of UTC: the instant is one hour earlier.
    assert_eq!(
        parse_dt_to_unix("2016/03/05 22:59:18 +0100"),
        Some(1457218758 - 3600)
    );
    assert_eq!(
        parse_dt_to_unix("2016/03/05 22:59:18 +0530"),
        Some(1457218758 - 5 * 3600 - 30 * 60)
    );
}

#[test]
fn parse_applies_negative_offset() {
    assert_eq!(
        parse_dt_to_unix("2016/03/05 22:59:18 -0100"),
        Some(1457218758 + 3600)
    );
}

#[test]
fn parse_accepts_leap_day() {
    // 2016-02-29 00:00:00 UTC.
    assert_eq!(parse_dt_to_unix("2016/02/29 00:00:00 +0000"), Some(1456704000));
}

#[test]
fn parse_rejects_malformed_text() {
    // Nonexistent calendar dates.
    assert_eq!(parse_dt_to_unix("2015/02/29 00:00:00 +0000"), None);
    assert_eq!(parse_dt_to_unix("2016/13/01 00:00:00 +0000"), None);
    assert_eq!(parse_dt_to_unix("2016/00/10 00:00:00 +0000"), None);
    assert_eq!(parse_dt_to_unix("2016/04/31 00:00:00 +0000"), None);
    // Out-of-range time of day or offset.
    assert_eq!(parse_dt_to_unix("2016/03/05 24:00:00 +0000"), None);
    assert_eq!(parse_dt_to_unix("2016/03/05 22:60:18 +0000"), None);
    assert_eq!(parse_dt_to_unix("2016/03/05 22:59:60 +0000"), None);
    assert_eq!(parse_dt_to_unix("2016/03/05 22:59:18 +2500"), None);
    assert_eq!(parse_dt_to_unix("2016/03/05 22:59:18 +0060"), None);
    // Alternate separators, partial dates, missing offsets.
    assert_eq!(parse_dt_to_unix("2016-03-05 22:59:18 +0000"), None);
    assert_eq!(parse_dt_to_unix("2016/03/05T22:59:18 +0000"), None);
    assert_eq!(parse_dt_to_unix("2016/3/5 22:59:18 +0000"), None);
    assert_eq!(parse_dt_to_unix("2016/03/05 22:59:18"), None);
    assert_eq!(parse_dt_to_unix("2016/03/05 22:59:18 0000"), None);
    assert_eq!(parse_dt_to_unix("2016/03/05 22:59:18 +000"), None);
    assert_eq!(parse_dt_to_unix(""), None);
    assert_eq!(parse_dt_to_unix("2016/03/05 22:59:18 +00000"), None);
}

#[test]
fn parse_agrees_with_chrono() {
    // chrono parses the same fixed format; the two must agree where both accept.
    let fmt = "%Y/%m/%d %H:%M:%S %z";
    let samples = [
        "2016/03/05 22:59:18 +0000",
        "1970/01/01 00:00:00 +0000",
        "1969/12/31 23:59:59 -0130",
        "2000/02/29 12:00:00 +0545",
        "2024/12/31 23:59:59 +1359",
        "1900/02/28 06:30:00 -1200",
        "0001/01/01 00:00:00 +0000",
        "9999/12/31 23:59:59 +0000",
    ];
    for s in samples.iter() {
        let ours = parse_dt_to_unix(s);
        let theirs = chrono::DateTime::parse_from_str(s, fmt)
            .map(|d| d.timestamp())
            .ok();
        assert_eq!(ours, theirs, "disagreement on {s}");
        assert!(ours.is_some());
    }
}

#[test]
fn decimal_rendering_of_identifiers() {
    assert_eq!(u64_to_dec(0), "0");
    assert_eq!(u64_to_dec(7), "7");
    assert_eq!(u64_to_dec(1457218758), "1457218758");
    assert_eq!(u64_to_dec(u64::MAX), "18446744073709551615");
    assert_eq!(i64_to_dec(0), "0");
    assert_eq!(i64_to_dec(12345), "12345");
    assert_eq!(i64_to_dec(-42), "-42");
    assert_eq!(i64_to_dec(i64::MAX), "9223372036854775807");
    assert_eq!(i64_to_dec(i64::MIN), "-9223372036854775808");
    assert_eq!(i64_to_dec(1000000), (1000000i64).to_string());
    assert_eq!(i64_to_dec(-987654321), (-987654321i64).to_string());
}
