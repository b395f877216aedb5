use rustcv::handle::{HandleRegistry, Release};

#[test]
fn new_registry_is_empty() {
    let r = HandleRegistry::new();
    assert_eq!(r.live_count(), 0);
    assert_eq!(r.rejected_count(), 0);
    assert!(!r.is_live(1));
    assert_eq!(r.owners(1), 0);
}

#[test]
fn single_owner_released_once() {
    let mut r = HandleRegistry::new();
    assert!(r.adopt(0x1000));
    assert!(r.is_live(0x1000));
    assert_eq!(r.owners(0x1000), 1);
    assert_eq!(r.release(0x1000), Release::Free);
    assert!(!r.is_live(0x1000));
    assert_eq!(r.live_count(), 0);
}

#[test]
fn double_release_through_copied_handle_is_detected() {
    let mut r = HandleRegistry::new();
    assert!(r.adopt(0xdead));
    // two owners hold the same handle value, with no retain between
    let first = r.release(0xdead);
    let second = r.release(0xdead);
    assert_eq!(first, Release::Free);
    assert_eq!(second, Release::Rejected);
    assert_eq!(r.rejected_count(), 1);
    assert_eq!(r.release(0xdead), Release::Rejected);
    assert_eq!(r.rejected_count(), 2);
}

#[test]
fn adopting_a_live_handle_is_refused() {
    let mut r = HandleRegistry::new();
    assert!(r.adopt(5));
    assert!(!r.adopt(5));
    assert_eq!(r.owners(5), 1);
    assert_eq!(r.live_count(), 1);
}

#[test]
fn retained_handle_freed_when_last_owner_lets_go() {
    let mut r = HandleRegistry::new();
    assert!(r.adopt(42));
    assert!(r.retain(42));
    assert!(r.retain(42));
    assert_eq!(r.owners(42), 3);
    assert_eq!(r.release(42), Release::Keep);
    assert_eq!(r.release(42), Release::Keep);
    assert_eq!(r.owners(42), 1);
    assert_eq!(r.release(42), Release::Free);
    assert_eq!(r.release(42), Release::Rejected);
    assert_eq!(r.rejected_count(), 1);
}

#[test]
fn exactly_one_free_per_handle() {
    let mut r = HandleRegistry::new();
    assert!(r.adopt(9));
    for _ in 0..4 {
        assert!(r.retain(9));
    }
    let outcomes: Vec<Release> = (0..8).map(|_| r.release(9)).collect();
    let frees = outcomes.iter().filter(|o| **o == Release::Free).count();
    assert_eq!(frees, 1);
    assert_eq!(outcomes[4], Release::Free);
    assert!(outcomes[..4].iter().all(|o| *o == Release::Keep));
    assert!(outcomes[5..].iter().all(|o| *o == Release::Rejected));
}

#[test]
fn retain_of_unknown_handle_is_refused() {
    let mut r = HandleRegistry::new();
    assert!(!r.retain(3));
    assert!(!r.is_live(3));
    assert_eq!(r.live_count(), 0);
}

#[test]
fn distinct_handles_are_independent() {
    let mut r = HandleRegistry::new();
    assert!(r.adopt(1));
    assert!(r.adopt(2));
    assert_eq!(r.live_count(), 2);
    assert_eq!(r.release(1), Release::Free);
    assert!(r.is_live(2));
    assert_eq!(r.owners(2), 1);
    assert_eq!(r.live_count(), 1);
}
