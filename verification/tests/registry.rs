use membership_registry::model::{Error, Event, TargetRef};
use membership_registry::registry::Registry;

const ADMIN: u64 = 1;
const ALICE: u64 = 42;
const BOB: u64 = 43;

fn fresh() -> Registry {
    Registry::new(ADMIN, 3, 10)
}

#[test]
fn scenario_full_lifecycle() {
    let mut r = fresh();
    assert_eq!(r.add_member(ADMIN, TargetRef::Id(ALICE), b"ab".to_vec()), Err(Error::TooShort));
    assert_eq!(
        r.add_member(ADMIN, TargetRef::Id(ALICE), b"abcdefghijk".to_vec()),
        Err(Error::TooLong)
    );
    assert_eq!(r.add_member(ADMIN, TargetRef::Id(ALICE), b"abc".to_vec()), Ok(()));
    assert_eq!(r.group_name(ALICE), Some(&b"abc".to_vec()));
    assert_eq!(r.add_member(ADMIN, TargetRef::Id(ALICE), b"xyz".to_vec()), Err(Error::AlreadyInGroup));
    assert_eq!(r.remove_member(ADMIN, TargetRef::Id(ALICE)), Ok(()));
    assert_eq!(r.group_name(ALICE), None);
    assert_eq!(r.remove_member(ADMIN, TargetRef::Id(ALICE)), Err(Error::NotInGroup));
}

#[test]
fn add_succeeds_only_within_bounds() {
    let mut r = fresh();
    assert_eq!(r.add_member(ADMIN, TargetRef::Id(ALICE), b"".to_vec()), Err(Error::TooShort));
    assert_eq!(r.add_member(ADMIN, TargetRef::Id(ALICE), b"ab".to_vec()), Err(Error::TooShort));
    assert!(!r.is_member(ALICE));
    assert_eq!(r.add_member(ADMIN, TargetRef::Id(ALICE), b"abcdefghij".to_vec()), Ok(()));
    assert!(r.is_member(ALICE));
    assert_eq!(r.add_member(ADMIN, TargetRef::Id(BOB), b"abcdefghijk".to_vec()), Err(Error::TooLong));
    assert!(!r.is_member(BOB));
}

#[test]
fn equal_bounds_admit_exactly_one_length() {
    let mut r = Registry::new(ADMIN, 4, 4);
    assert_eq!(r.add_member(ADMIN, TargetRef::Id(ALICE), b"abc".to_vec()), Err(Error::TooShort));
    assert_eq!(r.add_member(ADMIN, TargetRef::Id(ALICE), b"abcde".to_vec()), Err(Error::TooLong));
    assert_eq!(r.add_member(ADMIN, TargetRef::Id(ALICE), b"abcd".to_vec()), Ok(()));
}

#[test]
fn zero_minimum_admits_empty_name() {
    let mut r = Registry::new(ADMIN, 0, 2);
    assert_eq!(r.add_member(ADMIN, TargetRef::Id(ALICE), b"".to_vec()), Ok(()));
    assert_eq!(r.group_name(ALICE), Some(&b"".to_vec()));
}

#[test]
fn non_admin_is_rejected_without_effect() {
    let mut r = fresh();
    assert_eq!(r.add_member(BOB, TargetRef::Id(ALICE), b"abc".to_vec()), Err(Error::Unauthorized));
    assert_eq!(r.remove_member(BOB, TargetRef::Id(ALICE)), Err(Error::Unauthorized));
    assert_eq!(r.add_member(ADMIN, TargetRef::Id(ALICE), b"abc".to_vec()), Ok(()));
    assert_eq!(r.remove_member(BOB, TargetRef::Id(ALICE)), Err(Error::Unauthorized));
    assert_eq!(r.add_member(BOB, TargetRef::Id(ALICE), b"bad".to_vec()), Err(Error::Unauthorized));
    assert!(r.is_member(ALICE));
    assert_eq!(r.group_name(ALICE), Some(&b"abc".to_vec()));
    assert_eq!(r.events(), &vec![Event::MemberAdded { target: ALICE }]);
}

#[test]
fn unresolvable_target_is_rejected() {
    let mut r = fresh();
    assert_eq!(
        r.add_member(ADMIN, TargetRef::Index(9), b"abc".to_vec()),
        Err(Error::InvalidTarget)
    );
    assert_eq!(r.remove_member(ADMIN, TargetRef::Index(9)), Err(Error::InvalidTarget));
    assert_eq!(r.events(), &Vec::new());
}

#[test]
fn failing_calls_repeat_with_the_same_error() {
    let mut r = fresh();
    for _ in 0..3 {
        assert_eq!(r.remove_member(ADMIN, TargetRef::Id(ALICE)), Err(Error::NotInGroup));
    }
    assert_eq!(r.add_member(ADMIN, TargetRef::Id(ALICE), b"abc".to_vec()), Ok(()));
    for _ in 0..3 {
        assert_eq!(
            r.add_member(ADMIN, TargetRef::Id(ALICE), b"xyz".to_vec()),
            Err(Error::AlreadyInGroup)
        );
    }
    for _ in 0..3 {
        assert_eq!(
            r.add_member(ADMIN, TargetRef::Id(BOB), b"xy".to_vec()),
            Err(Error::TooShort)
        );
    }
    assert_eq!(r.group_name(ALICE), Some(&b"abc".to_vec()));
    assert!(!r.is_member(BOB));
    assert_eq!(r.events(), &vec![Event::MemberAdded { target: ALICE }]);
}

#[test]
fn round_trip_restores_the_map_and_logs_both_events() {
    let mut r = fresh();
    assert_eq!(r.add_member(ADMIN, TargetRef::Id(BOB), b"team".to_vec()), Ok(()));
    assert_eq!(r.add_member(ADMIN, TargetRef::Id(ALICE), b"club".to_vec()), Ok(()));
    assert_eq!(r.remove_member(ADMIN, TargetRef::Id(ALICE)), Ok(()));
    assert!(!r.is_member(ALICE));
    assert_eq!(r.group_name(BOB), Some(&b"team".to_vec()));
    assert_eq!(
        r.events(),
        &vec![
            Event::MemberAdded { target: BOB },
            Event::MemberAdded { target: ALICE },
            Event::MemberRemoved { target: ALICE },
        ]
    );
}

#[test]
fn configuration_is_reported_as_given() {
    let r = Registry::new(7, 2, 5);
    assert_eq!(r.admin(), 7);
    assert_eq!(r.min_length(), 2);
    assert_eq!(r.max_length(), 5);
    assert!(r.events().is_empty());
}
