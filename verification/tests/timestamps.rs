use fskit::FileTimestamp;

#[test]
fn max_prefers_later_seconds() {
    let a = FileTimestamp::new(10, 999_999_999);
    let b = FileTimestamp::new(11, 0);
    assert_eq!(a.max(b), b);
    assert_eq!(b.max(a), b);
}

#[test]
fn max_breaks_ties_by_nanoseconds() {
    let a = FileTimestamp::new(10, 1);
    let b = FileTimestamp::new(10, 2);
    assert_eq!(a.max(b), b);
    assert_eq!(b.max(a), b);
    assert_eq!(a.max(a), a);
}

#[test]
fn max_handles_times_before_the_epoch() {
    let before = FileTimestamp::new(-1, 999_999_999);
    let epoch = FileTimestamp::new(0, 0);
    assert_eq!(before.max(epoch), epoch);
    assert_eq!(FileTimestamp::new(i64::MIN, 0).max(FileTimestamp::new(i64::MAX, u32::MAX)),
        FileTimestamp::new(i64::MAX, u32::MAX));
}

#[test]
fn is_at_most_is_a_total_order_on_samples() {
    let samples = vec![
        FileTimestamp::new(-5, 0),
        FileTimestamp::new(0, 0),
        FileTimestamp::new(0, 1),
        FileTimestamp::new(3, 0),
        FileTimestamp::new(3, 7),
    ];
    for a in &samples {
        assert!(a.is_at_most(a));
        for b in &samples {
            assert!(a.is_at_most(b) || b.is_at_most(a));
            if a.is_at_most(b) && b.is_at_most(a) {
                assert_eq!(a, b);
            }
            for c in &samples {
                if a.is_at_most(b) && b.is_at_most(c) {
                    assert!(a.is_at_most(c));
                }
            }
        }
    }
}

#[test]
fn operators_follow_the_order() {
    let a = FileTimestamp::new(1, 5);
    let b = FileTimestamp::new(1, 6);
    let c = FileTimestamp::new(2, 0);
    assert!(a < b);
    assert!(b < c);
    assert!(a <= a);
    assert!(c > a);
    assert!(!(b >= c));
    assert_eq!(a < b, a.is_at_most(&b) && a != b);
}

#[test]
fn getters_return_the_fields() {
    let t = FileTimestamp::new(1_700_000_000, 123_456_789);
    assert_eq!(t.seconds(), 1_700_000_000);
    assert_eq!(t.nanoseconds(), 123_456_789);
}

#[test]
fn sorting_goes_by_seconds_then_nanoseconds() {
    let mut times = vec![
        FileTimestamp::new(3, 7),
        FileTimestamp::new(-5, 0),
        FileTimestamp::new(3, 0),
        FileTimestamp::new(0, 1),
        FileTimestamp::new(0, 0),
    ];
    times.sort_by(|a, b| a.partial_cmp(b).unwrap());
    assert_eq!(
        times,
        vec![
            FileTimestamp::new(-5, 0),
            FileTimestamp::new(0, 0),
            FileTimestamp::new(0, 1),
            FileTimestamp::new(3, 0),
            FileTimestamp::new(3, 7),
        ]
    );
    for pair in times.windows(2) {
        assert!(pair[0].is_at_most(&pair[1]));
    }
}
