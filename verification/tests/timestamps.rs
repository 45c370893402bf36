use ai_mind_map::timestamp::Timestamp;

#[test]
fn now_reads_a_time_after_2020() {
    let now = Timestamp::now();
    assert!(now.secs > 1_577_836_800);
    assert!(now.nanos < 1_000_000_000);
}

#[test]
fn later_picks_the_later_instant() {
    let a = Timestamp::new(10, 5);
    let b = Timestamp::new(10, 6);
    let c = Timestamp::new(11, 0);
    assert_eq!(a.later(b), b);
    assert_eq!(b.later(a), b);
    assert_eq!(c.later(b), c);
    assert_eq!(a.later(a), a);
    assert!(c.is_at_or_after(&a));
    assert!(a.is_at_or_after(&a));
    assert!(!a.is_at_or_after(&b));
}

#[test]
fn to_rfc3339_writes_whole_seconds_without_a_fraction() {
    let t = Timestamp::new(1_431_648_000, 0);
    assert_eq!(t.to_rfc3339(), Some("2015-05-15T00:00:00+00:00".to_string()));
}

#[test]
fn to_rfc3339_writes_milliseconds() {
    let t = Timestamp::new(1_431_648_000, 250_000_000);
    assert_eq!(t.to_rfc3339(), Some("2015-05-15T00:00:00.250+00:00".to_string()));
}

#[test]
fn to_rfc3339_has_no_text_for_too_many_nanoseconds() {
    let t = Timestamp::new(0, 2_000_000_000);
    assert_eq!(t.to_rfc3339(), None);
}

#[test]
fn parse_rfc3339_reads_utc_and_offsets() {
    assert_eq!(Timestamp::parse_rfc3339("2015-05-15T00:00:00Z"), Some(Timestamp::new(1_431_648_000, 0)));
    assert_eq!(
        Timestamp::parse_rfc3339("1996-12-19T16:39:57-08:00"),
        Some(Timestamp::new(851_042_397, 0))
    );
    assert_eq!(
        Timestamp::parse_rfc3339("2015-05-15T00:00:00.5+00:00"),
        Some(Timestamp::new(1_431_648_000, 500_000_000))
    );
}

#[test]
fn parse_rfc3339_refuses_other_text() {
    assert_eq!(Timestamp::parse_rfc3339("yesterday"), None);
    assert_eq!(Timestamp::parse_rfc3339(""), None);
    assert_eq!(Timestamp::parse_rfc3339("2015-05-15"), None);
}

#[test]
fn text_and_instant_round_trip() {
    let t = Timestamp::new(1_700_000_000, 123_456_789);
    let text = t.to_rfc3339().unwrap();
    assert_eq!(Timestamp::parse_rfc3339(&text), Some(t));
}

#[test]
fn every_second_of_the_years_1970_to_9999_has_a_text() {
    assert_eq!(Timestamp::new(0, 0).to_rfc3339(), Some("1970-01-01T00:00:00+00:00".to_string()));
    assert_eq!(
        Timestamp::new(253_402_300_799, 999_999_999).to_rfc3339(),
        Some("9999-12-31T23:59:59.999999999+00:00".to_string())
    );
    assert!(Timestamp::new(1_700_000_000, 1).to_rfc3339().is_some());
    assert!(Timestamp::now().to_rfc3339().is_some());
}
