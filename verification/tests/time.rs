use bearer_auth::auth::session::Session;
use bearer_auth::time::Timestamp;

#[test]
fn earlier_second_is_before() {
    assert!(Timestamp::new(10, 999_999_999).is_before(&Timestamp::new(11, 0)));
    assert!(!Timestamp::new(11, 0).is_before(&Timestamp::new(10, 999_999_999)));
}

#[test]
fn within_a_second_nanoseconds_decide() {
    assert!(Timestamp::new(10, 1).is_before(&Timestamp::new(10, 2)));
    assert!(!Timestamp::new(10, 2).is_before(&Timestamp::new(10, 1)));
}

#[test]
fn an_instant_is_not_before_itself() {
    assert!(!Timestamp::new(10, 5).is_before(&Timestamp::new(10, 5)));
}

#[test]
fn instants_before_the_epoch_are_ordered_too() {
    assert!(Timestamp::new(-2, 0).is_before(&Timestamp::new(-1, 0)));
    assert!(Timestamp::new(i64::MIN, 0).is_before(&Timestamp::new(i64::MAX, 0)));
    assert!(Timestamp::new(-1, 999_999_999).is_before(&Timestamp::new(0, 0)));
}

#[test]
fn timestamp_keeps_its_parts() {
    let t = Timestamp::new(1_700_000_000, 123);
    assert_eq!(t.secs, 1_700_000_000);
    assert_eq!(t.nanos, 123);
}

#[test]
fn session_is_valid_strictly_before_its_expiry() {
    let session = Session { id: 1, user_id: 2, expires: Timestamp::new(100, 500) };
    assert!(session.is_valid_at(&Timestamp::new(100, 499)));
    assert!(session.is_valid_at(&Timestamp::new(99, 999_999_999)));
    assert!(!session.is_valid_at(&Timestamp::new(100, 500)));
    assert!(!session.is_valid_at(&Timestamp::new(100, 501)));
    assert!(!session.is_valid_at(&Timestamp::new(101, 0)));
}
