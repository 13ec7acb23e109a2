use threadpool::priority::Priority;

#[test]
fn default_priority_is_zero() {
    assert_eq!(Priority::default(), Priority::new(0));
    assert_eq!(Priority::default().value(), 0);
}

#[test]
fn priority_from_i8_keeps_the_value() {
    assert_eq!(Priority::from(7i8).value(), 7);
    assert_eq!(Priority::from(-7i8), Priority::new(-7));
    let p: Priority = 3i8.into();
    assert_eq!(p.value(), 3);
}

#[test]
fn priorities_order_as_their_values() {
    assert!(Priority::new(2) > Priority::new(1));
    assert!(Priority::new(-1) < Priority::new(0));
    assert!(Priority::new(5) >= Priority::new(5));
    assert!(Priority::new(i8::MIN) < Priority::new(i8::MAX));
    assert_eq!(Priority::new(4).partial_cmp(&Priority::new(4)), Some(std::cmp::Ordering::Equal));
    assert_eq!(Priority::new(4).cmp(&Priority::new(9)), std::cmp::Ordering::Less);
    assert_eq!(Priority::new(3).max(Priority::new(8)), Priority::new(8));
}

#[test]
fn outranks_is_strict() {
    assert!(Priority::new(1).outranks(&Priority::new(0)));
    assert!(!Priority::new(1).outranks(&Priority::new(1)));
    assert!(!Priority::new(0).outranks(&Priority::new(1)));
}
