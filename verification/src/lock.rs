//! The constraint state machine: who decides when a pointer lock is
//! requested, confirmed, rolled back and released. The machine holds three
//! facts: whether the daemon considers itself locked, whether a lock
//! request object is outstanding with the display server, and whether the
//! recenter worker is running. The host performs the protocol requests,
//! event draining and thread control that the decisions call for, and
//! reports outcomes back.
//!
//! A lock attempt proceeds in two steps. `begin_lock` decides whether a
//! request may be issued and, when it may, engages the lock optimistically.
//! The host then issues the request and drains pending events, and reports
//! the outcome to `settle_lock`: on success the recenter worker is started;
//! on failure everything is rolled back to the unlocked state, so an error
//! never leaves a dangling locked state. `request_unlock` releases in one
//! step and tells the host what to tear down; the worker must be stopped
//! and joined before anything else runs, so at most one worker ever exists.
//!
//! A server-initiated unlock only retires the request object; the next tick
//! notices the lost constraint and releases, so the local flag follows
//! suit within one tick.

use vstd::prelude::*;

verus! {

/// Which protocol handles a lock request needs.
#[derive(Clone, Copy, PartialEq, Eq, Structural, Debug)]
pub struct Handles {
    pub has_constraints_manager: bool,
    pub has_pointer: bool,
    pub has_surface: bool,
}

impl Handles {
    /// Everything a lock request needs is bound.
    pub open spec fn all_present(self) -> bool {
        self.has_constraints_manager && self.has_pointer && self.has_surface
    }

    /// Whether everything a lock request needs is bound.
    pub fn ready(&self) -> (r: bool)
        ensures
            r == self.all_present(),
    {
        self.has_constraints_manager && self.has_pointer && self.has_surface
    }
}

/// What `begin_lock` decided.
#[derive(Clone, Copy, PartialEq, Eq, Structural, Debug)]
pub enum LockAttempt {
    /// Already locked: nothing to do.
    AlreadyLocked,
    /// A required handle is missing: nothing to do, the environment is
    /// degraded.
    MissingHandles,
    /// A request object is already outstanding: nothing to do, guards
    /// against duplicate in-flight requests.
    RequestInFlight,
    /// A lock request must now be issued against the display server.
    Engaged,
}

/// What the host must tear down after `request_unlock`.
#[derive(Clone, Copy, PartialEq, Eq, Structural, Debug)]
pub struct UnlockActions {
    /// Destroy the outstanding request object.
    pub destroy_constraint: bool,
    /// Set the worker's stop flag and join it to completion.
    pub stop_worker: bool,
    /// Drain pending protocol events (failure here is non-fatal).
    pub drain_events: bool,
}

/// What the control loop does on a tick.
#[derive(Clone, Copy, PartialEq, Eq, Structural, Debug)]
pub enum TickAction {
    /// Attempt a lock.
    EngageLock,
    /// Release the lock.
    ReleaseLock,
    /// Leave everything as it is.
    Idle,
}

/// The constraint state machine.
#[derive(Clone, Copy, PartialEq, Eq, Structural, Debug)]
pub struct LockMachine {
    /// The daemon considers the pointer locked.
    pub is_locked: bool,
    /// A lock request object is outstanding with the display server.
    pub constraint_active: bool,
    /// The recenter worker is running.
    pub worker_running: bool,
}

impl LockMachine {
    /// A request object or a running worker exists only while locked.
    pub open spec fn wf(self) -> bool {
        &&& (self.constraint_active ==> self.is_locked)
        &&& (self.worker_running ==> self.is_locked)
    }

    /// The fully released state.
    pub open spec fn spec_unlocked() -> LockMachine {
        LockMachine { is_locked: false, constraint_active: false, worker_running: false }
    }

    /// A machine in the initial, unlocked state.
    pub fn new() -> (m: LockMachine)
        ensures
            m == LockMachine::spec_unlocked(),
            m.wf(),
    {
        LockMachine { is_locked: false, constraint_active: false, worker_running: false }
    }

    /// What `begin_lock` decides: no-op when already locked, when a handle
    /// is missing, or when a request is already in flight; otherwise a
    /// request is issued.
    pub open spec fn spec_begin_lock_decision(self, handles: Handles) -> LockAttempt {
        if self.is_locked {
            LockAttempt::AlreadyLocked
        } else if !handles.all_present() {
            LockAttempt::MissingHandles
        } else if self.constraint_active {
            LockAttempt::RequestInFlight
        } else {
            LockAttempt::Engaged
        }
    }

    /// The state after `begin_lock`: engaged optimistically exactly when a
    /// request is issued, untouched otherwise.
    pub open spec fn spec_begin_lock_state(self, handles: Handles) -> LockMachine {
        if self.spec_begin_lock_decision(handles) == LockAttempt::Engaged {
            LockMachine {
                is_locked: true,
                constraint_active: true,
                worker_running: self.worker_running,
            }
        } else {
            self
        }
    }

    /// Decide whether to issue a lock request, and engage optimistically
    /// when one is issued. The host must issue the protocol request and
    /// drain events exactly when `Engaged` is returned, then report the
    /// outcome to `settle_lock`.
    pub fn begin_lock(&mut self, handles: &Handles) -> (r: LockAttempt)
        requires
            old(self).wf(),
        ensures
            r == old(self).spec_begin_lock_decision(*handles),
            *final(self) == old(self).spec_begin_lock_state(*handles),
            final(self).wf(),
            r == LockAttempt::Engaged ==> !final(self).worker_running,
    {
        if self.is_locked {
            return LockAttempt::AlreadyLocked;
        }
        if !self.has_all(handles) {
            return LockAttempt::MissingHandles;
        }
        if self.constraint_active {
            return LockAttempt::RequestInFlight;
        }
        self.is_locked = true;
        self.constraint_active = true;
        LockAttempt::Engaged
    }

    /// Settle an engaged lock attempt with the event-draining outcome: on
    /// success the worker is to be started; on failure the whole attempt is
    /// rolled back to the unlocked state and no worker was started.
    pub fn settle_lock(&mut self, dispatch_ok: bool) -> (start_worker: bool)
        requires
            old(self).wf(),
            old(self).is_locked,
            old(self).constraint_active,
            !old(self).worker_running,
        ensures
            start_worker == dispatch_ok,
            dispatch_ok ==> *final(self) == (LockMachine {
                is_locked: true,
                constraint_active: true,
                worker_running: true,
            }),
            !dispatch_ok ==> *final(self) == LockMachine::spec_unlocked(),
            final(self).wf(),
    {
        if dispatch_ok {
            self.worker_running = true;
            true
        } else {
            self.is_locked = false;
            self.constraint_active = false;
            self.worker_running = false;
            false
        }
    }

    /// Release the lock: a no-op when already unlocked; otherwise the
    /// machine is fully released and the host is told to destroy the
    /// request object if one is outstanding, stop and join the worker if
    /// one runs, and drain pending events.
    pub fn request_unlock(&mut self) -> (acts: UnlockActions)
        requires
            old(self).wf(),
        ensures
            !old(self).is_locked ==> *final(self) == *old(self) && acts == (UnlockActions {
                destroy_constraint: false,
                stop_worker: false,
                drain_events: false,
            }),
            old(self).is_locked ==> *final(self) == LockMachine::spec_unlocked() && acts
                == (UnlockActions {
                destroy_constraint: old(self).constraint_active,
                stop_worker: old(self).worker_running,
                drain_events: true,
            }),
            final(self).wf(),
            !final(self).worker_running,
    {
        if !self.is_locked {
            return UnlockActions { destroy_constraint: false, stop_worker: false, drain_events: false };
        }
        let acts = UnlockActions {
            destroy_constraint: self.constraint_active,
            stop_worker: self.worker_running,
            drain_events: true,
        };
        self.is_locked = false;
        self.constraint_active = false;
        self.worker_running = false;
        acts
    }

    /// The display server revoked the constraint: the request object is
    /// retired; the local flags follow on the next tick.
    pub fn on_server_unlocked(&mut self)
        ensures
            *final(self) == (LockMachine { constraint_active: false, ..*old(self) }),
            old(self).wf() ==> final(self).wf(),
    {
        self.constraint_active = false;
    }

    /// What a tick does given the debounced trigger: release when locked
    /// and either the trigger dropped or the server revoked the constraint;
    /// engage when unlocked and the trigger holds; otherwise nothing.
    pub open spec fn spec_tick_action(self, should_lock: bool) -> TickAction {
        if self.is_locked && (!should_lock || !self.constraint_active) {
            TickAction::ReleaseLock
        } else if !self.is_locked && should_lock {
            TickAction::EngageLock
        } else {
            TickAction::Idle
        }
    }

    /// Decide what this tick does.
    pub fn tick_action(&self, should_lock: bool) -> (a: TickAction)
        ensures
            a == self.spec_tick_action(should_lock),
    {
        if self.is_locked && (!should_lock || !self.constraint_active) {
            TickAction::ReleaseLock
        } else if !self.is_locked && should_lock {
            TickAction::EngageLock
        } else {
            TickAction::Idle
        }
    }

    /// The whole observable effect of one lock request on the machine: the
    /// decision, the optimistic engage, and the settle with the given
    /// event-draining outcome.
    pub open spec fn spec_lock_request(self, handles: Handles, dispatch_ok: bool) -> LockMachine {
        if self.spec_begin_lock_decision(handles) == LockAttempt::Engaged {
            if dispatch_ok {
                LockMachine { is_locked: true, constraint_active: true, worker_running: true }
            } else {
                LockMachine::spec_unlocked()
            }
        } else {
            self
        }
    }

    fn has_all(&self, handles: &Handles) -> (r: bool)
        ensures
            r == handles.all_present(),
    {
        handles.has_constraints_manager && handles.has_pointer && handles.has_surface
    }
}

/// The idempotence law: a second lock request right after a first one, with
/// the same handles and the same event-draining outcome, changes nothing —
/// there is never a duplicate request object or a duplicate worker.
pub proof fn lemma_lock_request_idempotent(m: LockMachine, handles: Handles, dispatch_ok: bool)
    requires
        m.wf(),
    ensures
        ({
            let once = m.spec_lock_request(handles, dispatch_ok);
            &&& once.spec_lock_request(handles, dispatch_ok) == once
            &&& once.wf()
        }),
{
}

} // verus!
