use desktop_switcher::backend::BackendError;
use desktop_switcher::keys::{Intent, WM_KEYDOWN, WM_KEYUP, VK_LWIN};
use desktop_switcher::occupancy::Emptiness;
use desktop_switcher::orchestrator::{Action, Cleanup, Event, Orchestrator, Phase, SwitchError};
use desktop_switcher::switcher::Switcher;

#[test]
fn creates_missing_desktops_and_skips_cleanup_of_first() {
    let mut o = Orchestrator::new(true);
    assert_eq!(o.begin(2), Action::ReadState);
    assert_eq!(o.step(Event::State { current: 0, count: 2 }), Action::Create);
    assert_eq!(o.step(Event::Created(Ok(2))), Action::SwitchTo(2));
    assert_eq!(o.last_active, Some(0));
    assert_eq!(o.step(Event::Switched(Ok(()))), Action::Finish(Ok(Cleanup::NotScheduled)));
    assert_eq!(o.phase, Phase::Idle);
}

#[test]
fn leaving_empty_desktop_removes_it() {
    let mut o = Orchestrator::new(true);
    assert_eq!(o.begin(0), Action::ReadState);
    assert_eq!(o.step(Event::State { current: 1, count: 3 }), Action::SwitchTo(0));
    assert_eq!(o.last_active, Some(1));
    assert_eq!(o.step(Event::Switched(Ok(()))), Action::Settle);
    assert_eq!(o.step(Event::Settled), Action::ReadCount);
    assert_eq!(o.step(Event::Count(3)), Action::CheckEmpty(1));
    assert_eq!(o.step(Event::Probed(Emptiness::Empty)), Action::Remove { target: 1, fallback: 0 });
    assert_eq!(o.step(Event::Removed(Ok(()))), Action::Finish(Ok(Cleanup::Removed)));
    assert_eq!(o.phase, Phase::Idle);
}

#[test]
fn creation_unavailable_fails_without_switch() {
    let mut o = Orchestrator::new(false);
    o.begin(4);
    assert_eq!(
        o.step(Event::State { current: 0, count: 2 }),
        Action::Finish(Err(SwitchError::DesktopUnavailable))
    );
    assert_eq!(o.last_active, None);
}

#[test]
fn creates_two_when_two_are_missing() {
    let mut o = Orchestrator::new(true);
    o.begin(3);
    assert_eq!(o.step(Event::State { current: 0, count: 2 }), Action::Create);
    assert_eq!(o.step(Event::Created(Ok(2))), Action::Create);
    assert_eq!(o.step(Event::Created(Ok(3))), Action::SwitchTo(3));
    assert_eq!(o.last_active, Some(0));
}

#[test]
fn creation_failure_aborts_switch() {
    let mut o = Orchestrator::new(true);
    o.begin(3);
    assert_eq!(o.step(Event::State { current: 0, count: 1 }), Action::Create);
    assert_eq!(o.step(Event::Created(Ok(1))), Action::Create);
    assert_eq!(
        o.step(Event::Created(Err(BackendError::CreateFailed))),
        Action::Finish(Err(SwitchError::DesktopUnavailable))
    );
    assert_eq!(o.phase, Phase::Idle);
}

#[test]
fn creates_exactly_the_missing_count() {
    let mut o = Orchestrator::new(true);
    o.begin(8);
    let mut action = o.step(Event::State { current: 0, count: 1 });
    let mut created = 0;
    while action == Action::Create {
        created += 1;
        action = o.step(Event::Created(Ok(created)));
    }
    assert_eq!(created, 8);
    assert_eq!(action, Action::SwitchTo(8));
}

#[test]
fn switch_failure_skips_cleanup() {
    let mut o = Orchestrator::new(true);
    o.begin(0);
    o.step(Event::State { current: 2, count: 3 });
    assert_eq!(
        o.step(Event::Switched(Err(BackendError::SwitchFailed))),
        Action::Finish(Err(SwitchError::SwitchFailed))
    );
}

#[test]
fn switching_to_same_desktop_skips_cleanup() {
    let mut o = Orchestrator::new(true);
    o.begin(1);
    assert_eq!(o.step(Event::State { current: 1, count: 3 }), Action::SwitchTo(1));
    assert_eq!(o.step(Event::Switched(Ok(()))), Action::Finish(Ok(Cleanup::NotScheduled)));
}

#[test]
fn only_desktop_is_kept() {
    let mut o = Orchestrator::new(true);
    o.begin(0);
    o.step(Event::State { current: 1, count: 2 });
    o.step(Event::Switched(Ok(())));
    o.step(Event::Settled);
    assert_eq!(o.step(Event::Count(1)), Action::Finish(Ok(Cleanup::KeptOnlyDesktop)));
}

#[test]
fn occupied_and_undetermined_desktops_are_kept() {
    for (verdict, outcome) in [
        (Emptiness::Occupied, Cleanup::KeptOccupied),
        (Emptiness::Unknown, Cleanup::KeptUndetermined),
    ] {
        let mut o = Orchestrator::new(true);
        o.begin(0);
        o.step(Event::State { current: 2, count: 3 });
        o.step(Event::Switched(Ok(())));
        o.step(Event::Settled);
        assert_eq!(o.step(Event::Count(3)), Action::CheckEmpty(2));
        assert_eq!(o.step(Event::Probed(verdict)), Action::Finish(Ok(outcome)));
    }
}

#[test]
fn removal_failure_is_not_fatal() {
    let mut o = Orchestrator::new(true);
    o.begin(3);
    o.step(Event::State { current: 2, count: 4 });
    o.step(Event::Switched(Ok(())));
    o.step(Event::Settled);
    o.step(Event::Count(4));
    assert_eq!(o.step(Event::Probed(Emptiness::Empty)), Action::Remove { target: 2, fallback: 1 });
    assert_eq!(
        o.step(Event::Removed(Err(BackendError::RemoveUnavailable))),
        Action::Finish(Ok(Cleanup::RemoveFailed(BackendError::RemoveUnavailable)))
    );
}

#[test]
fn unexpected_event_is_ignored() {
    let mut o = Orchestrator::new(true);
    assert_eq!(o.step(Event::Settled), Action::Ignore);
    o.begin(1);
    assert_eq!(o.step(Event::Count(2)), Action::Ignore);
    assert_eq!(o.phase, Phase::Reading { target: 1 });
}

#[test]
fn last_active_tracks_latest_switch() {
    let mut o = Orchestrator::new(true);
    o.begin(1);
    o.step(Event::State { current: 0, count: 3 });
    o.step(Event::Switched(Ok(())));
    assert_eq!(o.last_active, Some(0));
    o.begin(2);
    o.step(Event::State { current: 1, count: 3 });
    assert_eq!(o.last_active, Some(1));
    assert_eq!(o.step(Event::Switched(Ok(()))), Action::Settle);
}

#[test]
fn switcher_starts_switch_on_chord() {
    let mut s = Switcher::new(true);
    assert_eq!(s.on_hook(0, WM_KEYDOWN, 0x33), (Intent::Forward, None));
    assert_eq!(s.on_hook(0, WM_KEYDOWN, VK_LWIN), (Intent::Forward, None));
    assert_eq!(s.on_hook(0, WM_KEYDOWN, 0x33), (Intent::SwitchTo(2), Some(Action::ReadState)));
    assert_eq!(s.step(Event::State { current: 0, count: 2 }), Action::Create);
    assert_eq!(s.step(Event::Created(Ok(2))), Action::SwitchTo(2));
    assert_eq!(s.step(Event::Switched(Ok(()))), Action::Finish(Ok(Cleanup::NotScheduled)));
    assert_eq!(s.orchestrator.last_active, Some(0));
}

#[test]
fn switcher_forwards_digit_after_release() {
    let mut s = Switcher::new(true);
    s.on_hook(0, WM_KEYDOWN, VK_LWIN);
    s.on_hook(0, WM_KEYUP, VK_LWIN);
    assert_eq!(s.on_hook(0, WM_KEYDOWN, 0x33), (Intent::Forward, None));
    assert_eq!(s.orchestrator.phase, Phase::Idle);
}
