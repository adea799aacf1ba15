//! The desktop switch orchestrator. It decides, one backend result at a
//! time, what to ask of the backend next: read the state, create missing
//! desktops, switch, and then, after a settling delay, remove the desktop
//! that was left if it is empty. The caller performs each action and hands
//! back what came of it.
use vstd::prelude::*;
use crate::backend::BackendError;
use crate::occupancy::Emptiness;

verus! {

/// Why a switch did not happen.
#[derive(Clone, Copy, Debug, PartialEq, Eq)]
pub enum SwitchError {
    /// The target desktop does not exist and could not be created.
    DesktopUnavailable,
    /// The backend refused the switch itself.
    SwitchFailed,
}

/// What the cleanup after a successful switch came to.
#[derive(Clone, Copy, Debug, PartialEq, Eq)]
pub enum Cleanup {
    /// The desktop left is the target, the first desktop, or unknown.
    NotScheduled,
    /// Only one desktop exists.
    KeptOnlyDesktop,
    /// The candidate is the first desktop, which is never removed.
    KeptFirstDesktop,
    /// A qualifying window is on the candidate.
    KeptOccupied,
    /// The backend cannot say whether the candidate is empty.
    KeptUndetermined,
    /// The empty candidate was removed.
    Removed,
    /// The backend did not remove the empty candidate; it remains.
    RemoveFailed(BackendError),
}

/// Where the protocol stands: each phase but `Idle` waits for one result.
#[derive(Clone, Copy, Debug, PartialEq, Eq)]
pub enum Phase {
    Idle,
    /// Waits for the current index and the count.
    Reading { target: i32 },
    /// Waits for one creation; `remaining` counts it and those still to come.
    Creating { target: i32, current: i32, remaining: u64 },
    /// Waits for the switch.
    Switching { target: i32 },
    /// Waits for the settling delay to pass.
    Settling { candidate: i32 },
    /// Waits for the count before cleanup.
    Counting { candidate: i32 },
    /// Waits for the oracle's verdict on the candidate.
    Probing { candidate: i32, count: i32 },
    /// Waits for the removal.
    Removing { candidate: i32 },
}

/// What came of the last action.
#[derive(Clone, Copy, Debug, PartialEq, Eq)]
pub enum Event {
    State { current: i32, count: i32 },
    Created(Result<i32, BackendError>),
    Switched(Result<(), BackendError>),
    Settled,
    Count(i32),
    Probed(Emptiness),
    Removed(Result<(), BackendError>),
}

/// What the caller is to do next.
#[derive(Clone, Copy, Debug, PartialEq, Eq)]
pub enum Action {
    /// Read the current desktop index and the desktop count.
    ReadState,
    /// Create one desktop.
    Create,
    /// Switch to this desktop.
    SwitchTo(i32),
    /// Wait the settling delay.
    Settle,
    /// Read the desktop count.
    ReadCount,
    /// Ask the oracle whether this desktop is empty.
    CheckEmpty(i32),
    /// Remove `target`, moving what is left on it to `fallback`.
    Remove { target: i32, fallback: i32 },
    /// The protocol is over, with this outcome.
    Finish(Result<Cleanup, SwitchError>),
    /// The event did not fit the phase; nothing changed.
    Ignore,
}

/// The orchestrator's state: the phase of the switch under way, the desktop
/// that was active before the latest switch, and whether the backend can
/// create desktops.
#[derive(Clone, Copy, Debug, PartialEq, Eq)]
pub struct Orchestrator {
    pub phase: Phase,
    pub last_active: Option<i32>,
    pub can_create: bool,
}

/// The fallback for a removed desktop: the one before it, or the first.
pub open spec fn fallback_for(index: int) -> int {
    if index > 0 {
        index - 1
    } else {
        0
    }
}

/// How many desktops must be created so that `target` exists.
pub open spec fn missing_desktops(target: int, count: int) -> int {
    if target >= count {
        target - count + 1
    } else {
        0
    }
}

/// Whether leaving `last` for `target` schedules a cleanup of `last`.
pub open spec fn cleanup_candidate(last: Option<i32>, target: i32) -> bool {
    match last {
        Some(l) => l != target && l > 0,
        None => false,
    }
}

impl Orchestrator {
    pub open spec fn with(self, phase: Phase, last_active: Option<i32>) -> Orchestrator {
        Orchestrator { phase, last_active, can_create: self.can_create }
    }

    pub open spec fn finish(self, r: Result<Cleanup, SwitchError>) -> (Orchestrator, Action) {
        (self.with(Phase::Idle, self.last_active), Action::Finish(r))
    }

    /// The protocol's transition: the next state and action after `ev`.
    pub open spec fn step_spec(self, ev: Event) -> (Orchestrator, Action) {
        match (self.phase, ev) {
            (Phase::Reading { target }, Event::State { current, count }) => {
                if target >= count {
                    if self.can_create {
                        (
                            self.with(
                                Phase::Creating {
                                    target,
                                    current,
                                    remaining: missing_desktops(target as int, count as int) as u64,
                                },
                                self.last_active,
                            ),
                            Action::Create,
                        )
                    } else {
                        self.finish(Err(SwitchError::DesktopUnavailable))
                    }
                } else {
                    (
                        self.with(Phase::Switching { target }, Some(current)),
                        Action::SwitchTo(target),
                    )
                }
            },
            (Phase::Creating { target, current, remaining }, Event::Created(r)) => {
                match r {
                    Err(_) => self.finish(Err(SwitchError::DesktopUnavailable)),
                    Ok(_) => if remaining > 1 {
                        (
                            self.with(
                                Phase::Creating { target, current, remaining: (remaining - 1) as u64 },
                                self.last_active,
                            ),
                            Action::Create,
                        )
                    } else {
                        (
                            self.with(Phase::Switching { target }, Some(current)),
                            Action::SwitchTo(target),
                        )
                    },
                }
            },
            (Phase::Switching { target }, Event::Switched(r)) => {
                match r {
                    Err(_) => self.finish(Err(SwitchError::SwitchFailed)),
                    Ok(_) => if cleanup_candidate(self.last_active, target) {
                        (
                            self.with(
                                Phase::Settling { candidate: self.last_active.unwrap() },
                                self.last_active,
                            ),
                            Action::Settle,
                        )
                    } else {
                        self.finish(Ok(Cleanup::NotScheduled))
                    },
                }
            },
            (Phase::Settling { candidate }, Event::Settled) => {
                (self.with(Phase::Counting { candidate }, self.last_active), Action::ReadCount)
            },
            (Phase::Counting { candidate }, Event::Count(count)) => {
                if count <= 1 {
                    self.finish(Ok(Cleanup::KeptOnlyDesktop))
                } else if candidate == 0 {
                    self.finish(Ok(Cleanup::KeptFirstDesktop))
                } else {
                    (
                        self.with(Phase::Probing { candidate, count }, self.last_active),
                        Action::CheckEmpty(candidate),
                    )
                }
            },
            (Phase::Probing { candidate, count }, Event::Probed(e)) => {
                match e {
                    Emptiness::Empty => (
                        self.with(Phase::Removing { candidate }, self.last_active),
                        Action::Remove {
                            target: candidate,
                            fallback: fallback_for(candidate as int) as i32,
                        },
                    ),
                    Emptiness::Occupied => self.finish(Ok(Cleanup::KeptOccupied)),
                    Emptiness::Unknown => self.finish(Ok(Cleanup::KeptUndetermined)),
                }
            },
            (Phase::Removing { candidate }, Event::Removed(r)) => {
                match r {
                    Ok(_) => self.finish(Ok(Cleanup::Removed)),
                    Err(e) => self.finish(Ok(Cleanup::RemoveFailed(e))),
                }
            },
            _ => (self, Action::Ignore),
        }
    }

    /// The invariant of every reachable state.
    pub open spec fn wf(self) -> bool {
        match self.phase {
            Phase::Creating { target, remaining, .. } => 1 <= remaining <= target - i32::MIN + 1,
            Phase::Settling { candidate } => candidate > 0,
            Phase::Counting { candidate } => candidate > 0,
            Phase::Probing { candidate, count } => candidate > 0 && count > 1,
            Phase::Removing { candidate } => candidate > 0,
            _ => true,
        }
    }

    /// A new orchestrator, idle, with no desktop left yet.
    pub fn new(can_create: bool) -> (r: Orchestrator)
        ensures
            r.phase == Phase::Idle,
            r.last_active == None::<i32>,
            r.can_create == can_create,
            r.wf(),
    {
        Orchestrator { phase: Phase::Idle, last_active: None, can_create }
    }

    /// Starts a switch to `target`, abandoning any switch under way: the
    /// first action is to read the backend's state.
    pub fn begin(&mut self, target: i32) -> (r: Action)
        ensures
            final(self).phase == (Phase::Reading { target }),
            final(self).last_active == old(self).last_active,
            final(self).can_create == old(self).can_create,
            final(self).wf(),
            r == Action::ReadState,
    {
        self.phase = Phase::Reading { target };
        Action::ReadState
    }

    fn finish_with(&mut self, r: Result<Cleanup, SwitchError>) -> (a: Action)
        ensures
            (*final(self), a) == old(self).finish(r),
    {
        self.phase = Phase::Idle;
        Action::Finish(r)
    }

    /// Takes what came of the last action and says what to do next.
    pub fn step(&mut self, ev: Event) -> (r: Action)
        requires
            old(self).wf(),
        ensures
            (*final(self), r) == old(self).step_spec(ev),
            final(self).wf(),
    {
        match (self.phase, ev) {
            (Phase::Reading { target }, Event::State { current, count }) => {
                if target >= count {
                    if self.can_create {
                        let missing: i64 = target as i64 - count as i64 + 1;
                        self.phase = Phase::Creating { target, current, remaining: missing as u64 };
                        Action::Create
                    } else {
                        self.finish_with(Err(SwitchError::DesktopUnavailable))
                    }
                } else {
                    self.last_active = Some(current);
                    self.phase = Phase::Switching { target };
                    Action::SwitchTo(target)
                }
            },
            (Phase::Creating { target, current, remaining }, Event::Created(r)) => {
                match r {
                    Err(_) => self.finish_with(Err(SwitchError::DesktopUnavailable)),
                    Ok(_) => if remaining > 1 {
                        self.phase = Phase::Creating { target, current, remaining: remaining - 1 };
                        Action::Create
                    } else {
                        self.last_active = Some(current);
                        self.phase = Phase::Switching { target };
                        Action::SwitchTo(target)
                    },
                }
            },
            (Phase::Switching { target }, Event::Switched(r)) => {
                match r {
                    Err(_) => self.finish_with(Err(SwitchError::SwitchFailed)),
                    Ok(_) => match self.last_active {
                        Some(last) => if last != target && last > 0 {
                            self.phase = Phase::Settling { candidate: last };
                            Action::Settle
                        } else {
                            self.finish_with(Ok(Cleanup::NotScheduled))
                        },
                        None => self.finish_with(Ok(Cleanup::NotScheduled)),
                    },
                }
            },
            (Phase::Settling { candidate }, Event::Settled) => {
                self.phase = Phase::Counting { candidate };
                Action::ReadCount
            },
            (Phase::Counting { candidate }, Event::Count(count)) => {
                if count <= 1 {
                    self.finish_with(Ok(Cleanup::KeptOnlyDesktop))
                } else if candidate == 0 {
                    self.finish_with(Ok(Cleanup::KeptFirstDesktop))
                } else {
                    self.phase = Phase::Probing { candidate, count };
                    Action::CheckEmpty(candidate)
                }
            },
            (Phase::Probing { candidate, count }, Event::Probed(e)) => {
                match e {
                    Emptiness::Empty => {
                        self.phase = Phase::Removing { candidate };
                        let fallback: i32 = if candidate > 0 {
                            candidate - 1
                        } else {
                            0
                        };
                        Action::Remove { target: candidate, fallback }
                    },
                    Emptiness::Occupied => self.finish_with(Ok(Cleanup::KeptOccupied)),
                    Emptiness::Unknown => self.finish_with(Ok(Cleanup::KeptUndetermined)),
                }
            },
            (Phase::Removing { candidate }, Event::Removed(r)) => {
                match r {
                    Ok(_) => self.finish_with(Ok(Cleanup::Removed)),
                    Err(e) => self.finish_with(Ok(Cleanup::RemoveFailed(e))),
                }
            },
            _ => Action::Ignore,
        }
    }
}

} // verus!
