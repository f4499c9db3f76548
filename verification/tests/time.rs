use retis::time::TimeSpec;

#[test]
fn new_moves_whole_seconds() {
    assert_eq!(TimeSpec::new(0, 1_000_000_000), TimeSpec::new(1, 0));
    let t = TimeSpec::new(0, 2_000_000_001);
    assert_eq!((t.sec(), t.nsec()), (2, 1));
    let t = TimeSpec::new(3, 999_999_999);
    assert_eq!((t.sec(), t.nsec()), (3, 999_999_999));
    let t = TimeSpec::new(-3, 1_500_000_000);
    assert_eq!((t.sec(), t.nsec()), (-2, 500_000_000));
}

#[test]
fn new_leaves_negative_nanoseconds() {
    let t = TimeSpec::new(7, -5);
    assert_eq!((t.sec(), t.nsec()), (7, -5));
}

#[test]
fn sub_borrows() {
    let d = TimeSpec::new(5, 0) - TimeSpec::new(0, 1);
    assert_eq!((d.sec(), d.nsec()), (4, 999_999_999));
}

#[test]
fn add_carries() {
    let s = TimeSpec::new(1, 600_000_000) + TimeSpec::new(2, 700_000_000);
    assert_eq!((s.sec(), s.nsec()), (4, 300_000_000));
    let s = TimeSpec::new(1, 100) + TimeSpec::new(2, 200);
    assert_eq!((s.sec(), s.nsec()), (3, 300));
}

#[test]
fn add_then_sub_gives_the_start_back() {
    let cases = [
        (TimeSpec::new(0, 500_000_000), TimeSpec::new(0, 700_000_000)),
        (TimeSpec::new(12, 999_999_999), TimeSpec::new(-40, 1)),
        (TimeSpec::new(-7, 0), TimeSpec::new(7, 999_999_999)),
        (TimeSpec::new(0, 0), TimeSpec::new(0, 0)),
    ];
    for (a, b) in cases {
        assert_eq!((a + b) - b, a);
    }
}

#[test]
fn checked_add_and_sub() {
    let max = TimeSpec::new(i64::MAX, 999_999_999);
    assert_eq!(max.checked_add(TimeSpec::new(0, 1)), None);
    assert_eq!(max.checked_add(TimeSpec::new(1, 0)), None);
    assert_eq!(max.checked_add(TimeSpec::new(0, 0)), Some(max));
    assert_eq!(TimeSpec::new(1, 5).checked_add(TimeSpec::new(2, 6)), Some(TimeSpec::new(3, 11)));
    let min = TimeSpec::new(i64::MIN, 0);
    assert_eq!(min.checked_sub(TimeSpec::new(0, 1)), None);
    assert_eq!(min.checked_sub(TimeSpec::new(1, 0)), None);
    assert_eq!(
        TimeSpec::new(5, 0).checked_sub(TimeSpec::new(0, 1)),
        Some(TimeSpec::new(4, 999_999_999))
    );
}

#[test]
fn utc_date_of_known_instants() {
    assert_eq!(TimeSpec::new(0, 0).utc_date().unwrap(), "1970-01-01 00:00:00.000000");
    assert_eq!(
        TimeSpec::new(1431648000, 123_456_789).utc_date().unwrap(),
        "2015-05-15 00:00:00.123456"
    );
}

#[test]
fn utc_date_rejects_negative_nanoseconds_and_far_seconds() {
    assert_eq!(TimeSpec::new(10, -1).utc_date(), None);
    assert_eq!(TimeSpec::new(i64::MAX, 0).utc_date(), None);
}

#[test]
fn default_is_zero() {
    assert_eq!(TimeSpec::default(), TimeSpec::new(0, 0));
}
