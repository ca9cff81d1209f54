use quant_engine::engine::round_guard::{RoundGuard, RoundGuardScope};

#[test]
fn test_round_guard_basic() {
    let mut guard = RoundGuard::new();
    assert_eq!(guard.current_round_id(), 0);

    let id1 = guard.next_round_id();
    assert_eq!(id1, 1);
    assert_eq!(guard.current_round_id(), 1);

    let id2 = guard.next_round_id();
    assert_eq!(id2, 2);
}

#[test]
fn test_round_guard_verify() {
    let mut guard = RoundGuard::new();
    let id = guard.next_round_id();
    assert!(guard.verify(id));

    guard.next_round_id();
    assert!(!guard.verify(id));
}

#[test]
fn test_round_guard_scope() {
    let mut guard = RoundGuard::new();
    {
        let scope = RoundGuardScope::new(&mut guard);
        assert_eq!(scope.round_id(), 1);
        assert!(scope.is_valid());
    }

    let scope = RoundGuardScope::new(&mut guard);
    assert_eq!(scope.round_id(), 2);
    assert!(scope.is_valid());
}

#[test]
fn successive_rounds_count_up_in_turn() {
    let mut guard = RoundGuard::new();
    guard.next_round_id();
    guard.next_round_id();
    let start = guard.current_round_id();
    let ids: Vec<u64> = (0..5).map(|_| guard.next_round_id()).collect();
    assert_eq!(ids, vec![start + 1, start + 2, start + 3, start + 4, start + 5]);
    assert_eq!(guard.current_round_id(), start + 5);
}
