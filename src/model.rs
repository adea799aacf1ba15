//! A model of a backend whose primitives all succeed, and the laws that the
//! orchestrator keeps when it drives one.
use vstd::prelude::*;
use crate::occupancy::Emptiness;
use crate::orchestrator::{
    Action, Event, Orchestrator, Phase, SwitchError, missing_desktops,
};

verus! {

/// The backend's desktops as a count and a current index, with the number of
/// desktops created and removed so far.
pub struct DesktopModel {
    pub count: int,
    pub current: int,
    pub created: nat,
    pub removed: nat,
}

impl DesktopModel {
    /// Indices are dense and fit the backend's integers.
    pub open spec fn wf(self) -> bool {
        0 <= self.current < self.count <= i32::MAX
    }
}

/// The current index after removing `target` with `fallback`: a desktop
/// after the removed one moves down by one.
pub open spec fn index_after_removal(current: int, target: int, fallback: int) -> int {
    if current > target {
        current - 1
    } else if current == target {
        fallback
    } else {
        current
    }
}

/// How a backend that always succeeds answers `a`; `vacant` is the oracle's
/// answer for any desktop.
pub open spec fn respond(m: DesktopModel, a: Action, vacant: bool) -> (Event, DesktopModel) {
    match a {
        Action::ReadState => (Event::State { current: m.current as i32, count: m.count as i32 }, m),
        Action::Create => (
            Event::Created(Ok(m.count as i32)),
            DesktopModel { count: m.count + 1, current: m.current, created: m.created + 1, removed: m.removed },
        ),
        Action::SwitchTo(n) => (
            Event::Switched(Ok(())),
            DesktopModel { count: m.count, current: n as int, created: m.created, removed: m.removed },
        ),
        Action::ReadCount => (Event::Count(m.count as i32), m),
        Action::CheckEmpty(_) => (
            Event::Probed(
                if vacant {
                    Emptiness::Empty
                } else {
                    Emptiness::Occupied
                },
            ),
            m,
        ),
        Action::Remove { target, fallback } => (
            Event::Removed(Ok(())),
            DesktopModel {
                count: m.count - 1,
                current: index_after_removal(m.current, target as int, fallback as int),
                created: m.created,
                removed: m.removed + 1,
            },
        ),
        _ => (Event::Settled, m),
    }
}

/// Runs the protocol from state `o` and pending action `a` against the model
/// for at most `fuel` actions, and gives the final state, model and action.
pub open spec fn run(o: Orchestrator, m: DesktopModel, a: Action, vacant: bool, fuel: nat) -> (
    Orchestrator,
    DesktopModel,
    Action,
)
    decreases fuel,
{
    if fuel == 0 || a is Finish || a is Ignore {
        (o, m, a)
    } else {
        let (e, m2) = respond(m, a, vacant);
        let (o2, a2) = o.step_spec(e);
        run(o2, m2, a2, vacant, (fuel - 1) as nat)
    }
}

/// A whole switch to `target` against the model, with enough fuel for every
/// creation and the cleanup.
pub open spec fn switch_run(o: Orchestrator, m: DesktopModel, target: i32, vacant: bool) -> (
    Orchestrator,
    DesktopModel,
    Action,
) {
    run(
        Orchestrator { phase: Phase::Reading { target }, last_active: o.last_active, can_create: o.can_create },
        m,
        Action::ReadState,
        vacant,
        (missing_desktops(target as int, m.count) + 8) as nat,
    )
}

/// Whether a switch from `current` to `target` removes the desktop left:
/// cleanup is scheduled for it and the oracle finds it empty.
pub open spec fn leaves_removed(current: int, target: int, vacant: bool) -> bool {
    vacant && current != target && current > 0
}

proof fn lemma_creations(
    o: Orchestrator,
    m: DesktopModel,
    vacant: bool,
    fuel: nat,
    target: i32,
    current: i32,
    k: u64,
)
    requires
        o.phase == (Phase::Creating { target, current, remaining: k }),
        1 <= k,
        k <= fuel,
        m.count + k <= i32::MAX + 1,
        0 <= m.count,
    ensures
        run(o, m, Action::Create, vacant, fuel) == run(
            Orchestrator { phase: Phase::Switching { target }, last_active: Some(current), can_create: o.can_create },
            DesktopModel { count: m.count + k, current: m.current, created: (m.created + k) as nat, removed: m.removed },
            Action::SwitchTo(target),
            vacant,
            (fuel - k) as nat,
        ),
    decreases k,
{
    let (e, m2) = respond(m, Action::Create, vacant);
    let (o2, a2) = o.step_spec(e);
    assert(run(o, m, Action::Create, vacant, fuel) == run(o2, m2, a2, vacant, (fuel - 1) as nat));
    if k > 1 {
        lemma_creations(o2, m2, vacant, (fuel - 1) as nat, target, current, (k - 1) as u64);
    }
}

/// Switching to an existing desktop makes it the current one, against a
/// backend that succeeds. The one exception: when the desktop left lies
/// before the target and is removed as empty, the target moves down by one.
pub proof fn lemma_switch_to_existing(o: Orchestrator, m: DesktopModel, n: i32, vacant: bool)
    requires
        m.wf(),
        0 <= n < m.count,
    ensures
        ({
            let (o2, m2, a) = switch_run(o, m, n, vacant);
            &&& a is Finish && a->Finish_0 is Ok
            &&& o2.phase == Phase::Idle
            &&& o2.last_active == Some(m.current as i32)
            &&& m2.created == m.created
            &&& m2.current == if leaves_removed(m.current, n as int, vacant) && m.current < n {
                n - 1
            } else {
                n as int
            }
            &&& m2.count == m.count - if leaves_removed(m.current, n as int, vacant) {
                1int
            } else {
                0
            }
        }),
        !leaves_removed(m.current, n as int, vacant) || n < m.current ==> switch_run(o, m, n, vacant).1.current == n,
{
    reveal_with_fuel(run, 9);
}

/// A switch past the last desktop creates exactly the missing desktops and
/// makes the target current when the backend can create them; when it
/// cannot, the switch fails as unavailable and the desktops stay as they
/// were.
pub proof fn lemma_switch_creates_missing(o: Orchestrator, m: DesktopModel, n: i32, vacant: bool)
    requires
        m.wf(),
        n >= m.count,
        n < i32::MAX,
    ensures
        o.can_create ==> ({
            let (o2, m2, a) = switch_run(o, m, n, vacant);
            &&& a is Finish && a->Finish_0 is Ok
            &&& m2.created == m.created + (n - m.count + 1)
            &&& m2.count == n + 1 - if leaves_removed(m.current, n as int, vacant) {
                1int
            } else {
                0
            }
            &&& m2.current == if leaves_removed(m.current, n as int, vacant) {
                n - 1
            } else {
                n as int
            }
        }),
        !o.can_create ==> switch_run(o, m, n, vacant).2 == Action::Finish(
            Err(SwitchError::DesktopUnavailable),
        ) && switch_run(o, m, n, vacant).1 == m,
{
    let k = missing_desktops(n as int, m.count);
    let fuel = (k + 8) as nat;
    let o0 = Orchestrator { phase: Phase::Reading { target: n }, last_active: o.last_active, can_create: o.can_create };
    let (e, m1) = respond(m, Action::ReadState, vacant);
    let (o1, a1) = o0.step_spec(e);
    assert(switch_run(o, m, n, vacant) == run(o1, m1, a1, vacant, (fuel - 1) as nat));
    if o.can_create {
        lemma_creations(o1, m1, vacant, (fuel - 1) as nat, n, m.current as i32, k as u64);
        let o3 = Orchestrator { phase: Phase::Switching { target: n }, last_active: Some(m.current as i32), can_create: o.can_create };
        let m3 = DesktopModel { count: m.count + k, current: m.current, created: (m.created + k) as nat, removed: m.removed };
        assert(run(o3, m3, Action::SwitchTo(n), vacant, 7) == switch_run(o, m, n, vacant));
        assert(m3.count == n + 1);
        assert(m3.created == m.created + (n - m.count + 1));
        reveal_with_fuel(run, 8);
    } else {
        reveal_with_fuel(run, 2);
    }
}

/// Every state reachable from a new orchestrator keeps the invariant, and
/// cleanup asks to remove a desktop only when it is not the first and the
/// backend has just reported more than one desktop; the fallback is the
/// desktop before it.
pub proof fn lemma_removal_guard(o: Orchestrator, ev: Event)
    requires
        o.wf(),
    ensures
        o.step_spec(ev).0.wf(),
        o.step_spec(ev).1 is Remove ==> {
            let a = o.step_spec(ev).1;
            &&& a->target > 0
            &&& a->fallback == a->target - 1
            &&& o.phase matches Phase::Probing { candidate, count } && candidate == a->target
                && count > 1
        },
{
}

} // verus!
