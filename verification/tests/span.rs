use spawn_timeout::Span;

#[test]
fn zero_is_empty() {
    let z = Span::zero();
    assert_eq!(z.secs(), 0);
    assert_eq!(z.subsec_nanos(), 0);
    assert_eq!(z.as_nanos(), 0);
}

#[test]
fn from_millis_splits_seconds_and_nanoseconds() {
    let s = Span::from_millis(1_500);
    assert_eq!(s.secs(), 1);
    assert_eq!(s.subsec_nanos(), 500_000_000);
    assert_eq!(s.as_nanos(), 1_500_000_000);
    assert_eq!(Span::from_millis(200).as_nanos(), 200_000_000);
    assert_eq!(Span::from_millis(0), Span::zero());
}

#[test]
fn from_millis_takes_the_largest_input() {
    let s = Span::from_millis(u64::MAX);
    assert_eq!(s.secs(), 18_446_744_073_709_551);
    assert_eq!(s.subsec_nanos(), 615_000_000);
    assert_eq!(s.as_nanos(), 18_446_744_073_709_551_615_000_000);
}

#[test]
fn from_secs_has_no_fraction() {
    let s = Span::from_secs(3);
    assert_eq!(s.secs(), 3);
    assert_eq!(s.subsec_nanos(), 0);
    assert_eq!(s.as_nanos(), 3_000_000_000);
    assert_eq!(s, Span::from_millis(3_000));
}

#[test]
fn new_keeps_canonical_parts() {
    let s = Span::new(2, 999_999_999).unwrap();
    assert_eq!(s.secs(), 2);
    assert_eq!(s.subsec_nanos(), 999_999_999);
    assert_eq!(s.as_nanos(), 2_999_999_999);
}

#[test]
fn new_carries_whole_seconds() {
    let s = Span::new(1, 1_500_000_000).unwrap();
    assert_eq!(s.secs(), 2);
    assert_eq!(s.subsec_nanos(), 500_000_000);
    assert_eq!(s, Span::from_millis(2_500));
    let t = Span::new(0, u32::MAX).unwrap();
    assert_eq!(t.secs(), 4);
    assert_eq!(t.subsec_nanos(), 294_967_295);
}

#[test]
fn new_refuses_what_does_not_fit() {
    assert_eq!(Span::new(u64::MAX, 1_000_000_000), None);
    assert_eq!(Span::new(u64::MAX - 3, u32::MAX), None);
    let longest = Span::new(u64::MAX, 999_999_999).unwrap();
    assert_eq!(longest.secs(), u64::MAX);
    assert_eq!(longest.subsec_nanos(), 999_999_999);
    assert_eq!(longest.as_nanos(), 18_446_744_073_709_551_615_999_999_999);
    assert!(Span::new(u64::MAX - 4, u32::MAX).is_some());
}

#[test]
fn checked_sub_without_borrow() {
    let a = Span::new(5, 700_000_000).unwrap();
    let b = Span::new(2, 200_000_000).unwrap();
    assert_eq!(a.checked_sub(b), Span::new(3, 500_000_000));
}

#[test]
fn checked_sub_borrows_a_second() {
    let a = Span::new(5, 200_000_000).unwrap();
    let b = Span::new(2, 700_000_000).unwrap();
    let d = a.checked_sub(b).unwrap();
    assert_eq!(d.secs(), 2);
    assert_eq!(d.subsec_nanos(), 500_000_000);
    assert_eq!(d.as_nanos(), a.as_nanos() - b.as_nanos());
}

#[test]
fn checked_sub_of_equal_spans_is_zero() {
    let a = Span::from_millis(1_234);
    assert_eq!(a.checked_sub(a), Some(Span::zero()));
}

#[test]
fn checked_sub_fails_when_the_result_would_be_negative() {
    let a = Span::new(2, 200_000_000).unwrap();
    let b = Span::new(2, 200_000_001).unwrap();
    let c = Span::new(3, 0).unwrap();
    assert_eq!(a.checked_sub(b), None);
    assert_eq!(a.checked_sub(c), None);
    assert_eq!(Span::zero().checked_sub(Span::new(0, 1).unwrap()), None);
}

#[test]
fn saturating_sub_clamps_to_zero() {
    let a = Span::from_millis(500);
    let b = Span::from_millis(50);
    assert_eq!(a.saturating_sub(b), Span::from_millis(450));
    assert_eq!(b.saturating_sub(a), Span::zero());
    assert_eq!(a.saturating_sub(a), Span::zero());
}

#[test]
fn equal_lengths_are_equal_spans() {
    let a = Span::new(0, 2_000_000_000).unwrap();
    let b = Span::from_secs(2);
    assert_eq!(a.as_nanos(), b.as_nanos());
    assert_eq!(a, b);
    assert_ne!(a, Span::new(2, 1).unwrap());
}
