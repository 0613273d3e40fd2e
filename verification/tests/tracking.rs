use gdext_core::count::ClaimCount;
use gdext_core::text::decimal;
use gdext_core::tracker::{BorrowError, BorrowTracker, Holder};

fn shared(n: u64) -> BorrowError {
    BorrowError::AlreadyShared(ClaimCount::from_u64(n))
}

#[test]
fn new_tracker_is_free() {
    let tracker = BorrowTracker::new();
    assert_eq!(tracker.holder(), Holder::Nobody);
    assert_eq!(tracker.shared_count().as_u64(), Some(0));
}

#[test]
fn shared_claims_accumulate() {
    let mut tracker = BorrowTracker::new();
    for count in 1..=1000u64 {
        assert_eq!(tracker.acquire_shared(), Ok(()));
        assert_eq!(tracker.holder(), Holder::Readers);
        assert_eq!(tracker.shared_count().as_u64(), Some(count));
        assert_eq!(tracker.acquire_exclusive(), Err(shared(count)));
        assert_eq!(tracker.shared_count().as_u64(), Some(count));
    }
}

#[test]
fn shared_claims_have_no_limit() {
    let mut tracker = BorrowTracker::shared_by(ClaimCount::from_u64(u64::MAX - 1));
    assert_eq!(tracker.acquire_shared(), Ok(()));
    assert_eq!(tracker.shared_count().as_u64(), Some(u64::MAX));
    assert_eq!(tracker.acquire_shared(), Ok(()));
    assert_eq!(tracker.shared_count().as_u64(), None);
    assert_eq!(tracker.acquire_shared(), Ok(()));
    assert_eq!(tracker.holder(), Holder::Readers);
    let refused = tracker.acquire_exclusive().unwrap_err();
    assert_ne!(refused, shared(u64::MAX));
    assert_eq!(
        refused.message("Player"),
        "cannot borrow payload of type `Player` exclusively: it is already shared, by more than 18446744073709551615"
    );
    tracker.release_shared();
    assert_eq!(tracker.shared_count().as_u64(), None);
    tracker.release_shared();
    assert_eq!(tracker.shared_count().as_u64(), Some(u64::MAX));
    assert_eq!(tracker.acquire_exclusive(), Err(shared(u64::MAX)));
    tracker.release_shared();
    assert_eq!(tracker.shared_count().as_u64(), Some(u64::MAX - 1));
}

#[test]
fn tracker_of_no_readers_is_free() {
    let mut tracker = BorrowTracker::shared_by(ClaimCount::zero());
    assert_eq!(tracker.holder(), Holder::Nobody);
    assert_eq!(tracker.acquire_exclusive(), Ok(()));
}

#[test]
fn exclusive_claim_excludes_every_other() {
    let mut tracker = BorrowTracker::new();
    assert_eq!(tracker.acquire_exclusive(), Ok(()));
    assert_eq!(tracker.holder(), Holder::Writer);
    assert_eq!(tracker.acquire_shared(), Err(BorrowError::AlreadyExclusive));
    assert_eq!(tracker.acquire_exclusive(), Err(BorrowError::AlreadyExclusive));
    assert_eq!(tracker.holder(), Holder::Writer);
    assert_eq!(tracker.shared_count().as_u64(), Some(0));
}

#[test]
fn released_exclusive_claim_admits_shared() {
    let mut tracker = BorrowTracker::new();
    assert_eq!(tracker.acquire_exclusive(), Ok(()));
    tracker.release_exclusive();
    assert_eq!(tracker.holder(), Holder::Nobody);
    assert_eq!(tracker.acquire_shared(), Ok(()));
    assert_eq!(tracker.holder(), Holder::Readers);
    assert_eq!(tracker.shared_count().as_u64(), Some(1));
}

#[test]
fn released_exclusive_claim_admits_exclusive() {
    let mut tracker = BorrowTracker::new();
    assert_eq!(tracker.acquire_exclusive(), Ok(()));
    tracker.release_exclusive();
    assert_eq!(tracker.acquire_exclusive(), Ok(()));
    assert_eq!(tracker.holder(), Holder::Writer);
}

#[test]
fn last_shared_release_frees_the_payload() {
    let mut tracker = BorrowTracker::new();
    assert_eq!(tracker.acquire_shared(), Ok(()));
    assert_eq!(tracker.acquire_shared(), Ok(()));
    assert_eq!(tracker.acquire_shared(), Ok(()));
    tracker.release_shared();
    assert_eq!(tracker.shared_count().as_u64(), Some(2));
    tracker.release_shared();
    assert_eq!(tracker.shared_count().as_u64(), Some(1));
    assert_eq!(tracker.acquire_exclusive(), Err(shared(1)));
    tracker.release_shared();
    assert_eq!(tracker.holder(), Holder::Nobody);
    assert_eq!(tracker.acquire_exclusive(), Ok(()));
}

#[test]
fn balanced_claims_leave_no_trace() {
    let mut tracker = BorrowTracker::new();
    assert_eq!(tracker.acquire_shared(), Ok(()));
    let before = tracker.shared_count().clone();
    for _ in 0..50 {
        assert_eq!(tracker.acquire_shared(), Ok(()));
    }
    assert_eq!(tracker.shared_count().as_u64(), Some(51));
    for _ in 0..50 {
        tracker.release_shared();
    }
    assert_eq!(*tracker.shared_count(), before);
    tracker.release_shared();
    assert_eq!(tracker.holder(), Holder::Nobody);
}

#[test]
fn conflict_messages_name_type_and_state() {
    assert_eq!(
        BorrowError::AlreadyExclusive.message("Player"),
        "cannot borrow payload of type `Player`: it is already borrowed exclusively"
    );
    assert_eq!(
        shared(12).message("game::Enemy"),
        "cannot borrow payload of type `game::Enemy` exclusively: it is already shared, by 12"
    );
    assert_eq!(
        shared(1).message(""),
        "cannot borrow payload of type `` exclusively: it is already shared, by 1"
    );
    assert_eq!(
        shared(u64::MAX).message("P"),
        "cannot borrow payload of type `P` exclusively: it is already shared, by 18446744073709551615"
    );
}

#[test]
fn counts_go_up_and_down_across_words() {
    let mut count = ClaimCount::zero();
    assert!(count.is_zero());
    assert_eq!(count.as_u64(), Some(0));
    count.increment();
    assert!(!count.is_zero());
    assert_eq!(count, ClaimCount::from_u64(1));
    count.decrement();
    assert_eq!(count, ClaimCount::zero());

    let mut count = ClaimCount::from_u64(u64::MAX);
    let full = count.clone();
    count.increment();
    assert_eq!(count.as_u64(), None);
    let over = count.clone();
    count.increment();
    assert_ne!(count, over);
    count.decrement();
    assert_eq!(count, over);
    count.decrement();
    assert_eq!(count, full);
    assert_eq!(count.as_u64(), Some(u64::MAX));
    count.decrement();
    assert_eq!(count.as_u64(), Some(u64::MAX - 1));
}

#[test]
fn count_text_is_decimal_within_a_word() {
    let mut text = String::from("n=");
    ClaimCount::from_u64(907).append_to(&mut text);
    assert_eq!(text, "n=907");
    let mut text = String::new();
    ClaimCount::zero().append_to(&mut text);
    assert_eq!(text, "0");
    let mut count = ClaimCount::from_u64(u64::MAX);
    count.increment();
    let mut text = String::new();
    count.append_to(&mut text);
    assert_eq!(text, "more than 18446744073709551615");
}

#[test]
fn decimal_digits_of_counts() {
    assert_eq!(decimal(0), "0");
    assert_eq!(decimal(7), "7");
    assert_eq!(decimal(9), "9");
    assert_eq!(decimal(10), "10");
    assert_eq!(decimal(907), "907");
    assert_eq!(decimal(1_000_000), "1000000");
    assert_eq!(decimal(1234567890), "1234567890");
    assert_eq!(decimal(u64::MAX), "18446744073709551615");
}

#[test]
fn decimal_agrees_with_the_standard_rendering() {
    let mut n: u64 = 1;
    for _ in 0..64 {
        assert_eq!(decimal(n), n.to_string());
        assert_eq!(decimal(n - 1), (n - 1).to_string());
        n = n.wrapping_mul(3).wrapping_add(1);
    }
}
