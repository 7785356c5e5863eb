use authencore::clock::{Timestamp, NANOS_PER_SEC};

#[test]
fn parts_make_nanoseconds() {
    assert_eq!(NANOS_PER_SEC, 1_000_000_000);
    assert_eq!(Timestamp::from_parts(0, 0).nanos, 0);
    assert_eq!(Timestamp::from_parts(1, 5).nanos, 1_000_000_005);
    assert_eq!(Timestamp::from_parts(-1, 999_999_999).nanos, -1);
    assert_eq!(
        Timestamp::from_parts(i64::MAX, u32::MAX).nanos,
        i64::MAX as i128 * 1_000_000_000 + u32::MAX as i128
    );
    assert_eq!(Timestamp::from_parts(i64::MIN, 0).nanos, i64::MIN as i128 * 1_000_000_000);
    assert_eq!(Timestamp::from_nanos(42).nanos, 42);
}

#[test]
fn nanoseconds_split_into_parts() {
    assert_eq!(Timestamp::from_nanos(0).to_parts(), Some((0, 0)));
    assert_eq!(Timestamp::from_nanos(1_500_000_000).to_parts(), Some((1, 500_000_000)));
    assert_eq!(Timestamp::from_nanos(-1).to_parts(), Some((-1, 999_999_999)));
    assert_eq!(Timestamp::from_nanos(-1_000_000_000).to_parts(), Some((-1, 0)));
    assert_eq!(Timestamp::from_nanos(-1_000_000_001).to_parts(), Some((-2, 999_999_999)));
    assert_eq!(Timestamp::from_parts(i64::MAX, 7).to_parts(), Some((i64::MAX, 7)));
    assert_eq!(Timestamp::from_parts(i64::MIN, 7).to_parts(), Some((i64::MIN, 7)));
    assert_eq!(Timestamp::from_nanos(i128::MAX).to_parts(), None);
    assert_eq!(Timestamp::from_nanos(i128::MIN).to_parts(), None);
    assert_eq!(
        Timestamp::from_nanos((i64::MAX as i128 + 1) * 1_000_000_000).to_parts(),
        None
    );
    assert_eq!(
        Timestamp::from_nanos(i64::MIN as i128 * 1_000_000_000 - 1).to_parts(),
        None
    );
}

#[test]
fn rfc3339_text_is_parsed() {
    assert_eq!(
        Timestamp::parse("2024-01-01T00:00:00Z"),
        Some(Timestamp::from_parts(1_704_067_200, 0))
    );
    assert_eq!(
        Timestamp::parse("2024-01-01T01:00:00+01:00"),
        Some(Timestamp::from_parts(1_704_067_200, 0))
    );
    assert_eq!(
        Timestamp::parse("2024-01-01T00:00:00.5Z"),
        Some(Timestamp::from_parts(1_704_067_200, 500_000_000))
    );
    assert_eq!(Timestamp::parse("1970-01-01T00:00:00Z"), Some(Timestamp::from_nanos(0)));
    assert_eq!(
        Timestamp::parse("1969-12-31T23:59:59Z"),
        Some(Timestamp::from_nanos(-1_000_000_000))
    );
}

#[test]
fn other_text_is_not_parsed() {
    assert_eq!(Timestamp::parse(""), None);
    assert_eq!(Timestamp::parse("2024-01-01"), None);
    assert_eq!(Timestamp::parse("2024-01-01T00:00:00"), None);
    assert_eq!(Timestamp::parse("2024-13-01T00:00:00Z"), None);
    assert_eq!(Timestamp::parse("tomorrow"), None);
}

#[test]
fn timestamps_are_written_as_rfc3339() {
    assert_eq!(
        Timestamp::from_parts(1_704_067_200, 0).to_rfc3339(),
        Some("2024-01-01T00:00:00Z".to_string())
    );
    assert_eq!(
        Timestamp::from_parts(1_704_067_200, 500_000_000).to_rfc3339(),
        Some("2024-01-01T00:00:00.500Z".to_string())
    );
    assert_eq!(
        Timestamp::from_parts(1_704_067_200, 1_000).to_rfc3339(),
        Some("2024-01-01T00:00:00.000001Z".to_string())
    );
    assert_eq!(
        Timestamp::from_nanos(-1).to_rfc3339(),
        Some("1969-12-31T23:59:59.999999999Z".to_string())
    );
    assert_eq!(Timestamp::from_nanos(i128::MAX).to_rfc3339(), None);
    assert_eq!(Timestamp::from_parts(i64::MAX, 0).to_rfc3339(), None);
}

#[test]
fn written_timestamps_are_parsed_back() {
    for nanos in [0i128, 1, 999_999_999, 1_704_067_200_123_456_789, -86_400_000_000_001] {
        let written = Timestamp::from_nanos(nanos).to_rfc3339().unwrap();
        assert_eq!(Timestamp::parse(&written), Some(Timestamp::from_nanos(nanos)));
    }
}

#[test]
fn now_is_after_2020() {
    let now = Timestamp::now();
    assert!(now.nanos > 1_577_836_800i128 * 1_000_000_000);
    let later = Timestamp::now();
    assert!(later.nanos >= now.nanos - 5_000_000_000);
}

#[test]
fn elapsed_counts_whole_seconds() {
    let earlier = Timestamp::from_parts(100, 0);
    assert!(Timestamp::from_parts(160, 0).elapsed_at_least(&earlier, 60));
    assert!(!Timestamp::from_parts(159, 999_999_999).elapsed_at_least(&earlier, 60));
    assert!(Timestamp::from_parts(100, 0).elapsed_at_least(&earlier, 0));
    assert!(!Timestamp::from_parts(99, 0).elapsed_at_least(&earlier, 0));
    assert!(!Timestamp::from_parts(1_000_000, 0).elapsed_at_least(&earlier, u64::MAX));
}

#[test]
fn elapsed_holds_at_the_ends_of_the_range() {
    let first = Timestamp::from_nanos(i128::MIN);
    let last = Timestamp::from_nanos(i128::MAX);
    assert!(last.elapsed_at_least(&first, u64::MAX));
    assert!(!first.elapsed_at_least(&last, 0));
    assert!(first.within_of(&last, 0));
    assert!(!last.within_of(&first, u64::MAX));
}

#[test]
fn within_counts_whole_seconds() {
    let now = Timestamp::from_parts(1_000, 0);
    assert!(Timestamp::from_parts(1_600, 0).within_of(&now, 600));
    assert!(!Timestamp::from_parts(1_600, 1).within_of(&now, 600));
    assert!(Timestamp::from_parts(900, 0).within_of(&now, 0));
    assert!(Timestamp::from_parts(1_000, 0).within_of(&now, 0));
    assert!(!Timestamp::from_parts(1_000, 1).within_of(&now, 0));
}

#[test]
fn clock_reading_can_be_written_and_read_back() {
    let now = Timestamp::now();
    let (secs, nanos) = now.to_parts().unwrap();
    assert!(nanos < 1_000_000_000);
    assert_eq!(Timestamp::from_parts(secs, nanos), now);
    let written = now.to_rfc3339().unwrap();
    assert_eq!(Timestamp::parse(&written), Some(now));
}

#[test]
fn leap_second_is_read_as_the_second_after() {
    let leap = Timestamp::parse("2016-12-31T23:59:60Z").unwrap();
    assert_eq!(leap, Timestamp::from_parts(1_483_228_799, 1_000_000_000));
    assert_eq!(leap, Timestamp::from_parts(1_483_228_800, 0));
    assert_eq!(leap.to_rfc3339(), Some("2017-01-01T00:00:00Z".to_string()));
    let within = Timestamp::parse("2016-12-31T23:59:60.25Z").unwrap();
    assert_eq!(within.to_parts(), Some((1_483_228_800, 250_000_000)));
}

#[test]
fn every_parsed_instant_is_written_again() {
    let texts = [
        "0000-01-01T00:00:00Z",
        "0000-01-01T00:00:00+23:59",
        "9999-12-31T23:59:59.999999999Z",
        "9999-12-31T23:59:59-23:59",
        "9999-12-31T23:59:60-23:59",
        "1970-01-01T00:00:00.000000001Z",
    ];
    for text in texts {
        let parsed = Timestamp::parse(text).unwrap();
        let written = parsed.to_rfc3339().unwrap();
        assert!(written.ends_with('Z'));
        if !written.starts_with('+') && !written.starts_with('-') {
            assert_eq!(Timestamp::parse(&written), Some(parsed));
        }
    }
}
