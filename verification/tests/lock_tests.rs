use demonhide::lock::{Handles, LockAttempt, LockMachine, TickAction};

fn all_handles() -> Handles {
    Handles { has_constraints_manager: true, has_pointer: true, has_surface: true }
}

#[test]
fn locking_twice_has_the_effect_of_locking_once() {
    let mut m = LockMachine::new();
    let first = m.begin_lock(&all_handles());
    assert_eq!(first, LockAttempt::Engaged);
    let started = m.settle_lock(true);
    assert!(started);
    let after_first = m;

    // The second request is a no-op: no second request object, no second
    // worker.
    let second = m.begin_lock(&all_handles());
    assert_eq!(second, LockAttempt::AlreadyLocked);
    assert_eq!(m, after_first);
}

#[test]
fn dispatch_failure_rolls_back_to_unlocked_without_worker() {
    let mut m = LockMachine::new();
    assert_eq!(m.begin_lock(&all_handles()), LockAttempt::Engaged);
    let started = m.settle_lock(false);
    assert!(!started);
    assert!(!m.is_locked);
    assert!(!m.constraint_active);
    assert!(!m.worker_running);
}

#[test]
fn missing_handles_block_the_attempt() {
    let mut m = LockMachine::new();
    let h = Handles { has_constraints_manager: true, has_pointer: false, has_surface: true };
    assert_eq!(m.begin_lock(&h), LockAttempt::MissingHandles);
    assert_eq!(m, LockMachine::new());
    let h = Handles { has_constraints_manager: false, has_pointer: true, has_surface: true };
    assert_eq!(m.begin_lock(&h), LockAttempt::MissingHandles);
    let h = Handles { has_constraints_manager: true, has_pointer: true, has_surface: false };
    assert_eq!(m.begin_lock(&h), LockAttempt::MissingHandles);
}

#[test]
fn unlock_releases_everything_and_names_the_teardown() {
    let mut m = LockMachine::new();
    m.begin_lock(&all_handles());
    m.settle_lock(true);
    let acts = m.request_unlock();
    assert!(acts.destroy_constraint);
    assert!(acts.stop_worker);
    assert!(acts.drain_events);
    assert!(!m.is_locked && !m.constraint_active && !m.worker_running);
}

#[test]
fn unlock_when_unlocked_is_a_no_op() {
    let mut m = LockMachine::new();
    let acts = m.request_unlock();
    assert!(!acts.destroy_constraint && !acts.stop_worker && !acts.drain_events);
    assert_eq!(m, LockMachine::new());
}

#[test]
fn server_revocation_is_reconciled_on_the_next_tick() {
    let mut m = LockMachine::new();
    m.begin_lock(&all_handles());
    m.settle_lock(true);
    m.on_server_unlocked();
    assert!(m.is_locked && !m.constraint_active && m.worker_running);
    // Even with the trigger still on, the tick releases the stale lock...
    assert_eq!(m.tick_action(true), TickAction::ReleaseLock);
    let acts = m.request_unlock();
    assert!(!acts.destroy_constraint && acts.stop_worker);
    // ...and the next tick may lock again.
    assert_eq!(m.tick_action(true), TickAction::EngageLock);
}

#[test]
fn tick_actions_follow_the_debounced_trigger() {
    let mut m = LockMachine::new();
    assert_eq!(m.tick_action(false), TickAction::Idle);
    assert_eq!(m.tick_action(true), TickAction::EngageLock);
    m.begin_lock(&all_handles());
    m.settle_lock(true);
    assert_eq!(m.tick_action(true), TickAction::Idle);
    assert_eq!(m.tick_action(false), TickAction::ReleaseLock);
}
