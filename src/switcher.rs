//! The one context that the hook callback owns: the modifier state and the
//! orchestrator, with the desktop left by the latest switch.
use vstd::prelude::*;
use crate::keys::{Intent, KeyboardHook, intent_spec, key_event_spec, next_modifier_down};
use crate::orchestrator::{Action, Event, Orchestrator, Phase};

verus! {

#[derive(Clone, Copy, Debug, PartialEq, Eq)]
pub struct Switcher {
    pub hook: KeyboardHook,
    pub orchestrator: Orchestrator,
}

impl Switcher {
    pub open spec fn wf(self) -> bool {
        self.orchestrator.wf()
    }

    pub fn new(can_create: bool) -> (r: Switcher)
        ensures
            !r.hook.modifier_down,
            r.orchestrator.phase == Phase::Idle,
            r.orchestrator.last_active == None::<i32>,
            r.orchestrator.can_create == can_create,
            r.wf(),
    {
        Switcher { hook: KeyboardHook::new(), orchestrator: Orchestrator::new(can_create) }
    }

    /// Takes one hook notification. A switch intent starts the switch, and
    /// its first action comes back beside the intent.
    pub fn on_hook(&mut self, code: i32, message: usize, vk_code: u32) -> (r: (Intent, Option<Action>))
        requires
            old(self).wf(),
        ensures
            final(self).wf(),
            code < 0 ==> r == (Intent::Forward, None::<Action>) && *final(self) == *old(self),
            code >= 0 ==> {
                let ev = key_event_spec(message, vk_code);
                &&& final(self).hook.modifier_down == next_modifier_down(
                    old(self).hook.modifier_down,
                    ev,
                )
                &&& r.0 == intent_spec(final(self).hook.modifier_down, ev)
            },
            match r.0 {
                Intent::SwitchTo(target) => {
                    &&& r.1 == Some(Action::ReadState)
                    &&& final(self).orchestrator.phase == (Phase::Reading { target })
                    &&& final(self).orchestrator.last_active == old(self).orchestrator.last_active
                    &&& final(self).orchestrator.can_create == old(self).orchestrator.can_create
                },
                _ => r.1 == None::<Action> && final(self).orchestrator == old(self).orchestrator,
            },
    {
        let intent = self.hook.on_hook(code, message, vk_code);
        match intent {
            Intent::SwitchTo(target) => {
                let a = self.orchestrator.begin(target);
                (intent, Some(a))
            },
            _ => (intent, None),
        }
    }

    /// Hands what came of the last action to the orchestrator.
    pub fn step(&mut self, ev: Event) -> (r: Action)
        requires
            old(self).wf(),
        ensures
            (final(self).orchestrator, r) == old(self).orchestrator.step_spec(ev),
            final(self).hook == old(self).hook,
            final(self).wf(),
    {
        self.orchestrator.step(ev)
    }
}

} // verus!
