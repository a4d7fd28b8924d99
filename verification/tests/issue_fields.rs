use intrack::feat::issue::{Priority, PriorityParseError, Status, StatusParseError, Timestamp};

#[test]
fn status_words_are_read_in_any_case() {
    assert_eq!(Status::from_str("open"), Ok(Status::Open));
    assert_eq!(Status::from_str("Active"), Ok(Status::Open));
    assert_eq!(Status::from_str("PENDING"), Ok(Status::Open));
    assert_eq!(Status::from_str("closed"), Ok(Status::Closed));
    assert_eq!(Status::from_str("Done"), Ok(Status::Closed));
    assert_eq!(Status::from_str("FINISHED"), Ok(Status::Closed));
}

#[test]
fn status_rejects_other_words() {
    assert_eq!(Status::from_str(""), Err(StatusParseError));
    assert_eq!(Status::from_str(" open"), Err(StatusParseError));
    assert_eq!(Status::from_str("opened"), Err(StatusParseError));
    assert_eq!(Status::from_lowercase("OPEN"), Err(StatusParseError));
}

#[test]
fn status_inverts_and_orders() {
    assert_eq!(Status::Open.invert(), Status::Closed);
    assert_eq!(Status::Closed.invert(), Status::Open);
    assert!(Status::Open < Status::Closed);
    assert_eq!(Status::Open.ordinal(), 0);
    assert_eq!(Status::Closed.ordinal(), 1);
    assert_eq!(Status::default(), Status::Open);
    assert_eq!(Status::Open.to_string(), "Open");
    assert_eq!(Status::Closed.to_string(), "Closed");
}

#[test]
fn priority_words_are_read_in_any_case() {
    assert_eq!(Priority::from_str("trivial"), Ok(Priority::Trivial));
    assert_eq!(Priority::from_str("T"), Ok(Priority::Trivial));
    assert_eq!(Priority::from_str("Typo"), Ok(Priority::Trivial));
    assert_eq!(Priority::from_str("LOW"), Ok(Priority::Low));
    assert_eq!(Priority::from_str("l"), Ok(Priority::Low));
    assert_eq!(Priority::from_str("Medium"), Ok(Priority::Medium));
    assert_eq!(Priority::from_str("m"), Ok(Priority::Medium));
    assert_eq!(Priority::from_str("high"), Ok(Priority::High));
    assert_eq!(Priority::from_str("H"), Ok(Priority::High));
    assert_eq!(Priority::from_str("Critical"), Ok(Priority::Critical));
    assert_eq!(Priority::from_str("c"), Ok(Priority::Critical));
    assert_eq!(Priority::from_str("BLOCKER"), Ok(Priority::Blocker));
    assert_eq!(Priority::from_str("b"), Ok(Priority::Blocker));
}

#[test]
fn priority_rejects_other_words() {
    assert_eq!(Priority::from_str(""), Err(PriorityParseError));
    assert_eq!(Priority::from_str("urgent"), Err(PriorityParseError));
    assert_eq!(Priority::from_str("low "), Err(PriorityParseError));
    assert_eq!(Priority::from_lowercase("Low"), Err(PriorityParseError));
}

#[test]
fn priorities_are_ordered_by_urgency() {
    let all = [
        Priority::Trivial,
        Priority::Low,
        Priority::Medium,
        Priority::High,
        Priority::Critical,
        Priority::Blocker,
    ];
    for (i, p) in all.iter().enumerate() {
        assert_eq!(p.ordinal() as usize, i);
        for (j, q) in all.iter().enumerate() {
            assert_eq!(p < q, i < j);
        }
    }
    assert_eq!(Priority::default(), Priority::Trivial);
    assert_eq!(Priority::Critical.to_string(), "Critical");
    assert_eq!(Priority::Blocker.to_string(), "Blocker");
}

#[test]
fn instants_are_ordered_by_their_nanoseconds() {
    let a = Timestamp::new(5, 10);
    let b = Timestamp::new(5, 11);
    let c = Timestamp::new(6, 0);
    assert!(a.is_before(&b));
    assert!(b.is_before(&c));
    assert!(a.is_before(&c));
    assert!(!b.is_before(&a));
    assert!(!a.is_before(&a));
    assert_eq!(Timestamp::default(), Timestamp::new(0, 0));
}

#[test]
fn the_order_of_instants_does_not_depend_on_the_split() {
    let whole = Timestamp::new(6, 0);
    let split = Timestamp::new(5, 1_000_000_000);
    assert!(!whole.is_before(&split));
    assert!(!split.is_before(&whole));
    assert!(Timestamp::new(5, 999_999_999).is_before(&whole));
    assert!(Timestamp::new(5, 999_999_999).is_before(&split));
    assert!(Timestamp::new(-1, 500_000_000).is_before(&Timestamp::new(0, -400_000_000)));
    assert!(Timestamp::new(-1, -1).is_before(&Timestamp::new(-1, 0)));
    assert!(Timestamp::new(i64::MIN, i32::MIN).is_before(&Timestamp::new(i64::MAX, i32::MAX)));
    assert!(Timestamp::new(2, -2_000_000_000).is_before(&Timestamp::new(0, 1)));
}

#[test]
fn the_clock_gives_an_instant_of_this_age() {
    let now = Timestamp::now().expect("the clock is set to a year that can be written");
    assert!(now.second > 1_600_000_000);
    assert!(now.nanosecond >= 0 && now.nanosecond < 1_000_000_000);
}
