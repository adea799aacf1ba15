//! The keyboard hook's state machine: it tracks whether the trigger modifier
//! is held and turns each raw key event into an intent.
use vstd::prelude::*;

verus! {

/// Virtual-key code of the escape key.
pub const VK_ESCAPE: u32 = 0x1B;

/// Virtual-key code of the left trigger modifier.
pub const VK_LWIN: u32 = 0x5B;

/// Virtual-key code of the right trigger modifier.
pub const VK_RWIN: u32 = 0x5C;

/// Virtual-key code of the top-row digit 0.
pub const VK_DIGIT_0: u32 = 0x30;

/// Virtual-key code of the top-row digit 1.
pub const VK_DIGIT_1: u32 = 0x31;

/// Virtual-key code of the top-row digit 9.
pub const VK_DIGIT_9: u32 = 0x39;

/// Message code of a key press.
pub const WM_KEYDOWN: usize = 0x0100;

/// Message code of a key release.
pub const WM_KEYUP: usize = 0x0101;

/// Message code of a key press while a system key is held.
pub const WM_SYSKEYDOWN: usize = 0x0104;

/// Message code of a key release while a system key is held.
pub const WM_SYSKEYUP: usize = 0x0105;

/// One physical key transition as the hook sees it.
#[derive(Clone, Copy, Debug, PartialEq, Eq)]
pub struct KeyEvent {
    pub vk_code: u32,
    pub is_key_down: bool,
    pub is_key_up: bool,
}

/// What the hook does with one event. Every intent but `Forward` consumes
/// the event.
#[derive(Clone, Copy, Debug, PartialEq, Eq)]
pub enum Intent {
    /// Pass the event on unchanged.
    Forward,
    /// Switch to the desktop with this zero-based index.
    SwitchTo(i32),
    /// Report the current desktop and the number of desktops.
    Report,
    /// Ask the main loop to quit.
    Quit,
}

pub open spec fn is_modifier_key(vk: u32) -> bool {
    vk == VK_LWIN || vk == VK_RWIN
}

/// Digits 1 to 9 of the top row.
pub open spec fn is_ordinal_digit(vk: u32) -> bool {
    VK_DIGIT_1 <= vk <= VK_DIGIT_9
}

pub open spec fn key_event_spec(message: usize, vk_code: u32) -> KeyEvent {
    KeyEvent {
        vk_code,
        is_key_down: message == WM_KEYDOWN || message == WM_SYSKEYDOWN,
        is_key_up: message == WM_KEYUP || message == WM_SYSKEYUP,
    }
}

/// The modifier state after `ev`: a modifier event sets it to whether the
/// key went down; any other key leaves it as it was.
pub open spec fn next_modifier_down(down: bool, ev: KeyEvent) -> bool {
    if is_modifier_key(ev.vk_code) {
        ev.is_key_down
    } else {
        down
    }
}

/// The intent for a key event seen while the modifier state is `down`.
pub open spec fn intent_spec(down: bool, ev: KeyEvent) -> Intent {
    if ev.is_key_down && down {
        if is_ordinal_digit(ev.vk_code) {
            Intent::SwitchTo((ev.vk_code - VK_DIGIT_1) as i32)
        } else if ev.vk_code == VK_DIGIT_0 {
            Intent::Report
        } else if ev.vk_code == VK_ESCAPE {
            Intent::Quit
        } else {
            Intent::Forward
        }
    } else {
        Intent::Forward
    }
}

impl Intent {
    pub open spec fn consumes(self) -> bool {
        !(self is Forward)
    }

    /// Whether the event that gave this intent is kept from other applications.
    pub fn is_consumed(&self) -> (r: bool)
        ensures
            r == self.consumes(),
    {
        match self {
            Intent::Forward => false,
            _ => true,
        }
    }
}

impl KeyEvent {
    /// Reads a raw hook message: a press or a release, plain or with a
    /// system key held.
    pub fn from_message(message: usize, vk_code: u32) -> (r: KeyEvent)
        ensures
            r == key_event_spec(message, vk_code),
    {
        KeyEvent {
            vk_code,
            is_key_down: message == WM_KEYDOWN || message == WM_SYSKEYDOWN,
            is_key_up: message == WM_KEYUP || message == WM_SYSKEYUP,
        }
    }
}

/// The hook's modifier state. It starts with the modifier up.
#[derive(Clone, Copy, Debug, PartialEq, Eq)]
pub struct KeyboardHook {
    pub modifier_down: bool,
}

impl KeyboardHook {
    pub fn new() -> (r: KeyboardHook)
        ensures
            !r.modifier_down,
    {
        KeyboardHook { modifier_down: false }
    }

    /// Takes one key event: updates the modifier state and says what to do
    /// with the event.
    pub fn on_key(&mut self, ev: KeyEvent) -> (r: Intent)
        ensures
            final(self).modifier_down == next_modifier_down(old(self).modifier_down, ev),
            r == intent_spec(final(self).modifier_down, ev),
    {
        if ev.vk_code == VK_LWIN || ev.vk_code == VK_RWIN {
            self.modifier_down = ev.is_key_down;
        }
        if ev.is_key_down && self.modifier_down {
            if VK_DIGIT_1 <= ev.vk_code && ev.vk_code <= VK_DIGIT_9 {
                Intent::SwitchTo((ev.vk_code - VK_DIGIT_1) as i32)
            } else if ev.vk_code == VK_DIGIT_0 {
                Intent::Report
            } else if ev.vk_code == VK_ESCAPE {
                Intent::Quit
            } else {
                Intent::Forward
            }
        } else {
            Intent::Forward
        }
    }

    /// Takes one hook notification. A negative `code` means that the event
    /// is not for this hook: it is forwarded and the state is left alone.
    pub fn on_hook(&mut self, code: i32, message: usize, vk_code: u32) -> (r: Intent)
        ensures
            code < 0 ==> r == Intent::Forward && *final(self) == *old(self),
            code >= 0 ==> {
                let ev = key_event_spec(message, vk_code);
                &&& final(self).modifier_down == next_modifier_down(old(self).modifier_down, ev)
                &&& r == intent_spec(final(self).modifier_down, ev)
            },
    {
        if code < 0 {
            Intent::Forward
        } else {
            self.on_key(KeyEvent::from_message(message, vk_code))
        }
    }
}

/// A top-row digit press is consumed exactly when the modifier is held at the
/// time of the press; any key is forwarded while the modifier is up.
pub proof fn lemma_digit_consumed_iff_modifier_down(down: bool, ev: KeyEvent)
    requires
        ev.is_key_down,
        VK_DIGIT_0 <= ev.vk_code <= VK_DIGIT_9,
    ensures
        next_modifier_down(down, ev) == down,
        intent_spec(next_modifier_down(down, ev), ev).consumes() == down,
        !down ==> intent_spec(next_modifier_down(down, ev), ev) == Intent::Forward,
{
}

/// After a modifier release, no key is consumed until the modifier goes down
/// again.
pub proof fn lemma_released_modifier_forwards(release: KeyEvent, ev: KeyEvent)
    requires
        is_modifier_key(release.vk_code),
        !release.is_key_down,
        !is_modifier_key(ev.vk_code),
    ensures
        forall|down: bool|
            #![trigger next_modifier_down(down, release)]
            intent_spec(next_modifier_down(next_modifier_down(down, release), ev), ev)
                == Intent::Forward,
{
}

} // verus!
