use vstd::prelude::*;
use crate::state::{AppState, AppStateView, Hkl};

verus! {

/// Virtual-key code of the CapsLock key.
pub const VK_CAPITAL: u16 = 0x14;

/// Virtual-key code of the space bar.
pub const VK_SPACE: u16 = 0x20;

/// Virtual-key code of the left Windows key.
pub const VK_LWIN: u16 = 0x5B;

/// Window message of a key going down.
pub const WM_KEYDOWN: u32 = 0x0100;

/// Keystroke flag: the key goes up.
pub const KEYEVENTF_KEYUP: u32 = 0x0002;

/// Keystroke flag: the key is an extended key.
pub const KEYEVENTF_EXTENDEDKEY: u32 = 0x0001;

/// A low-level keyboard event as the hook receives it: the hook code, the
/// virtual-key code of the key and the window message that reports it.
#[derive(Clone, Copy, Debug, PartialEq, Eq, Structural)]
pub struct KeyEvent {
    pub code: i32,
    pub vk_code: u32,
    pub message: usize,
}

/// A synthesized keystroke: which key, and the keystroke flags.
#[derive(Clone, Copy, Debug, PartialEq, Eq, Structural)]
pub struct KeyStroke {
    pub vk: u16,
    pub flags: u32,
}

/// How to move away from the current layout.
#[derive(Clone, Copy, Debug, PartialEq, Eq, Structural)]
pub enum LayoutSwitch {
    /// Press Win+Space, so that the system moves to its next layout.
    Imitate,
    /// Ask the foreground window to take this layout.
    ChangeTo(Hkl),
}

/// What the keyboard hook does with one key event.
#[derive(Clone, Copy, Debug, PartialEq, Eq, Structural)]
pub struct HookDecision {
    /// Hand the event on to the next hook; otherwise the key goes no further.
    pub pass_on: bool,
    /// Toggle CapsLock itself first.
    pub toggle_capslock: bool,
    /// Then leave the current layout this way.
    pub switch: Option<LayoutSwitch>,
}

/// The event is a CapsLock key going down, reported with a code the hook
/// may act on.
pub open spec fn is_capslock_down(event: KeyEvent) -> bool {
    &&& event.code >= 0
    &&& event.vk_code == VK_CAPITAL as u32
    &&& event.message == WM_KEYDOWN as usize
}

/// The hook takes the event for itself (and the key goes no further) exactly
/// when the switcher is not paused and the event is a CapsLock press.
pub open spec fn hook_intercepts(state: AppStateView, event: KeyEvent) -> bool {
    !state.paused && is_capslock_down(event)
}

/// Shift is down: the asynchronous key state has its most significant bit set.
pub open spec fn shift_is_down(shift_state: i16) -> bool {
    shift_state < 0
}

/// What a CapsLock press does to the layout, and which layout is remembered
/// once the decision is made: in cycling mode the system's next layout, with
/// nothing remembered; in "previous layout" mode, the remembered layout if it
/// differs from the current one, and otherwise the next layout, remembering
/// the current one when nothing was remembered yet.
pub open spec fn switch_plan(state: AppStateView, current: Hkl) -> (LayoutSwitch, Option<Hkl>) {
    if !state.previous_mode {
        (LayoutSwitch::Imitate, state.prev_layout)
    } else {
        match state.prev_layout {
            Some(prev) => if prev == current {
                (LayoutSwitch::Imitate, state.prev_layout)
            } else {
                (LayoutSwitch::ChangeTo(prev), state.prev_layout)
            },
            None => (LayoutSwitch::Imitate, Some(current)),
        }
    }
}

/// The settings after the layout request was answered: a zero answer means
/// the layout changed, and the layout it was left is remembered.
pub open spec fn after_change(state: AppStateView, current: Hkl, answer: isize) -> AppStateView {
    if answer == 0 {
        state.with_prev_layout(Some(current))
    } else {
        state
    }
}

/// The keyboard hook's decision on one event, and the settings after it: an
/// event it does not take is handed on and changes nothing; a CapsLock press
/// it takes stops there, toggles CapsLock when Shift is down and Shift+CapsLock
/// keeps its usual meaning, and then leaves the layout as `switch_plan` says,
/// remembering what that plan remembers.
pub open spec fn hook_decision(
    state: AppStateView,
    event: KeyEvent,
    shift_state: i16,
    current: Hkl,
) -> (HookDecision, AppStateView) {
    if !hook_intercepts(state, event) {
        (HookDecision { pass_on: true, toggle_capslock: false, switch: None }, state)
    } else {
        let plan = switch_plan(state, current);
        (
            HookDecision {
                pass_on: false,
                toggle_capslock: shift_is_down(shift_state) && state.default_capslock_behaviour,
                switch: Some(plan.0),
            },
            state.with_prev_layout(plan.1),
        )
    }
}

/// Whether a low-level keyboard event is a CapsLock press: a non-negative hook
/// code, the CapsLock key and the key-down message.
pub fn is_capslock_press(event: &KeyEvent) -> (r: bool)
    ensures
        r == is_capslock_down(*event),
{
    event.code >= 0 && event.vk_code == VK_CAPITAL as u32 && event.message == WM_KEYDOWN as usize
}

/// Whether the keyboard hook handles this event itself rather than passing
/// it on to the next hook.
pub fn intercepts(state: &AppState, event: &KeyEvent) -> (r: bool)
    ensures
        r == hook_intercepts(state@, *event),
{
    !state.is_paused() && is_capslock_press(event)
}

/// Whether Shift is down, from its asynchronous key state.
pub fn shift_is_pressed(shift_state: i16) -> (r: bool)
    ensures
        r == shift_is_down(shift_state),
{
    shift_state < 0
}

/// Whether a handled CapsLock press also toggles CapsLock itself: when Shift
/// is down and Shift+CapsLock keeps its usual meaning.
pub fn wants_capslock_toggle(state: &AppState, shift_state: i16) -> (r: bool)
    ensures
        r == (shift_is_down(shift_state) && state@.default_capslock_behaviour),
{
    shift_is_pressed(shift_state) && state.is_default_capslock_behaviour_enabled()
}

/// Decides how a handled CapsLock press leaves the current layout, and
/// remembers the current layout where the decision calls for it.
pub fn begin_layout_switch(state: &mut AppState, current: Hkl) -> (r: LayoutSwitch)
    ensures
        r == switch_plan(old(state)@, current).0,
        final(state)@ == old(state)@.with_prev_layout(switch_plan(old(state)@, current).1),
{
    if !state.is_previous_mode() {
        return LayoutSwitch::Imitate;
    }
    match state.prev_layout() {
        Some(prev) => {
            if prev == current {
                LayoutSwitch::Imitate
            } else {
                LayoutSwitch::ChangeTo(prev)
            }
        },
        None => {
            state.set_prev_layout(Some(current));
            LayoutSwitch::Imitate
        },
    }
}

/// One step of the keyboard hook: decides what to do with the event, given
/// the Shift key's asynchronous state and the foreground window's layout
/// (both read only when the event is taken), and updates the remembered
/// layout. The answer to a layout request is recorded afterwards with
/// `finish_layout_switch`.
pub fn hook_step(state: &mut AppState, event: &KeyEvent, shift_state: i16, current: Hkl) -> (r:
    HookDecision)
    ensures
        r == hook_decision(old(state)@, *event, shift_state, current).0,
        final(state)@ == hook_decision(old(state)@, *event, shift_state, current).1,
        r.pass_on <==> r.switch is None,
{
    if !intercepts(state, event) {
        return HookDecision { pass_on: true, toggle_capslock: false, switch: None };
    }
    let toggle_capslock = wants_capslock_toggle(state, shift_state);
    let switch = begin_layout_switch(state, current);
    HookDecision { pass_on: false, toggle_capslock, switch: Some(switch) }
}

/// Records the answer to a layout request: when the layout changed (a zero
/// answer), the layout that was left becomes the one to go back to.
pub fn finish_layout_switch(state: &mut AppState, current: Hkl, answer: isize)
    ensures
        final(state)@ == after_change(old(state)@, current, answer),
{
    if answer == 0 {
        state.set_prev_layout(Some(current));
    }
}

/// A keystroke for a key going down or, with `key_up`, up.
pub fn create_kbd_input(vk_code: u16, key_up: bool) -> (r: KeyStroke)
    ensures
        r == (KeyStroke { vk: vk_code, flags: if key_up { KEYEVENTF_KEYUP } else { 0 } }),
{
    KeyStroke { vk: vk_code, flags: if key_up { KEYEVENTF_KEYUP } else { 0 } }
}

/// The keystrokes of Win+Space: Win down, Space down, Space up, Win up.
pub open spec fn layout_change_strokes() -> Seq<KeyStroke> {
    seq![
        KeyStroke { vk: VK_LWIN, flags: 0 },
        KeyStroke { vk: VK_SPACE, flags: 0 },
        KeyStroke { vk: VK_SPACE, flags: KEYEVENTF_KEYUP },
        KeyStroke { vk: VK_LWIN, flags: KEYEVENTF_KEYUP },
    ]
}

/// The keystrokes that make the system move to its next layout.
pub fn layout_change_keystrokes() -> (r: Vec<KeyStroke>)
    ensures
        r@ == layout_change_strokes(),
{
    let mut inputs: Vec<KeyStroke> = Vec::new();
    inputs.push(create_kbd_input(VK_LWIN, false));
    inputs.push(create_kbd_input(VK_SPACE, false));
    inputs.push(create_kbd_input(VK_SPACE, true));
    inputs.push(create_kbd_input(VK_LWIN, true));
    inputs
}

/// The keystroke that toggles CapsLock: CapsLock as an extended key.
pub fn capslock_keystroke() -> (r: KeyStroke)
    ensures
        r == (KeyStroke { vk: VK_CAPITAL, flags: KEYEVENTF_EXTENDEDKEY }),
{
    KeyStroke { vk: VK_CAPITAL, flags: KEYEVENTF_EXTENDEDKEY }
}

/// A paused switcher lets every key event through.
pub proof fn lemma_paused_passes_everything(state: AppStateView, event: KeyEvent)
    requires
        state.paused,
    ensures
        !hook_intercepts(state, event),
{
}

/// Only CapsLock presses are ever taken by the hook.
pub proof fn lemma_only_capslock_is_taken(state: AppStateView, event: KeyEvent)
    requires
        hook_intercepts(state, event),
    ensures
        event.vk_code == VK_CAPITAL as u32,
        event.message == WM_KEYDOWN as usize,
        event.code >= 0,
{
}

/// In cycling mode every press moves to the system's next layout and leaves
/// the remembered layout as it was.
pub proof fn lemma_cycling_mode_always_imitates(state: AppStateView, current: Hkl)
    requires
        !state.previous_mode,
    ensures
        switch_plan(state, current) == (LayoutSwitch::Imitate, state.prev_layout),
{
}

/// In "previous layout" mode a layout is remembered once a press has been
/// decided, and a layout request never asks for the layout one is already in.
pub proof fn lemma_previous_mode_remembers(state: AppStateView, current: Hkl)
    requires
        state.previous_mode,
    ensures
        switch_plan(state, current).1 is Some,
        switch_plan(state, current).0 != LayoutSwitch::ChangeTo(current),
{
}

/// "Previous layout" mode goes back and forth between two layouts: a press in
/// layout `current` with `prev` remembered asks for `prev`; once that request
/// succeeds, a press in `prev` asks for `current` again, and once that one
/// succeeds the remembered layout is `prev` once more.
pub proof fn lemma_previous_mode_alternates(state: AppStateView, current: Hkl, prev: Hkl)
    requires
        state.previous_mode,
        state.prev_layout == Some(prev),
        prev != current,
    ensures
        ({
            let first = switch_plan(state, current);
            let s1 = after_change(state.with_prev_layout(first.1), current, 0);
            let second = switch_plan(s1, prev);
            let s2 = after_change(s1.with_prev_layout(second.1), prev, 0);
            &&& first.0 == LayoutSwitch::ChangeTo(prev)
            &&& s1.prev_layout == Some(current)
            &&& second.0 == LayoutSwitch::ChangeTo(current)
            &&& s2 == state
        }),
{
}

/// The hook never changes a setting that the tray menu shows: only the
/// remembered layout can change.
pub proof fn lemma_hook_keeps_menu_settings(
    state: AppStateView,
    event: KeyEvent,
    shift_state: i16,
    current: Hkl,
    answer: isize,
)
    ensures
        ({
            let after = hook_decision(state, event, shift_state, current).1;
            let answered = after_change(after, current, answer);
            &&& after.paused == state.paused
            &&& after.previous_mode == state.previous_mode
            &&& after.default_capslock_behaviour == state.default_capslock_behaviour
            &&& answered.paused == state.paused
            &&& answered.previous_mode == state.previous_mode
            &&& answered.default_capslock_behaviour == state.default_capslock_behaviour
        }),
{
}

/// Every CapsLock key-down (virtual key 0x14, message 0x0100, non-negative
/// hook code) reaching a switcher that is not paused is taken by the hook and
/// not handed on, whatever the mode, the remembered layout and the
/// Shift+CapsLock behaviour are; and the hook always moves away from the
/// current layout on it.
pub proof fn lemma_unpaused_capslock_press_is_taken(
    state: AppStateView,
    event: KeyEvent,
    shift_state: i16,
    current: Hkl,
)
    requires
        !state.paused,
        event.code >= 0,
        event.vk_code == 0x14,
        event.message == 0x0100,
    ensures
        hook_intercepts(state, event),
        !hook_decision(state, event, shift_state, current).0.pass_on,
        hook_decision(state, event, shift_state, current).0.switch is Some,
{
}

/// An event the hook hands on (a paused switcher, another key, a key-up or
/// another message, or a negative hook code) gets no action and leaves every
/// setting, the remembered layout included, exactly as it was.
pub proof fn lemma_passed_on_event_changes_nothing(
    state: AppStateView,
    event: KeyEvent,
    shift_state: i16,
    current: Hkl,
)
    requires
        state.paused || event.code < 0 || event.vk_code != 0x14 || event.message != 0x0100,
    ensures
        hook_decision(state, event, shift_state, current) == (
            HookDecision { pass_on: true, toggle_capslock: false, switch: None },
            state,
        ),
{
}

/// Typing other keys does not make "previous layout" mode forget where to go
/// back: after any event the hook hands on, a CapsLock press in a layout other
/// than the remembered one still asks for the remembered layout.
pub proof fn lemma_other_keys_keep_the_way_back(
    state: AppStateView,
    other: KeyEvent,
    press: KeyEvent,
    shift_other: i16,
    current_other: Hkl,
    shift_press: i16,
    current: Hkl,
    prev: Hkl,
)
    requires
        !state.paused,
        state.previous_mode,
        state.prev_layout == Some(prev),
        prev != current,
        other.code < 0 || other.vk_code != 0x14 || other.message != 0x0100,
        press.code >= 0,
        press.vk_code == 0x14,
        press.message == 0x0100,
    ensures
        ({
            let after_other = hook_decision(state, other, shift_other, current_other).1;
            let answer = hook_decision(after_other, press, shift_press, current);
            &&& after_other.prev_layout == Some(prev)
            &&& answer.0.switch == Some(LayoutSwitch::ChangeTo(prev))
            &&& answer.1.prev_layout == Some(prev)
        }),
{
}

/// On a CapsLock press the hook takes, CapsLock itself is toggled exactly when
/// Shift is held (its key state is negative) and Shift+CapsLock keeps its usual
/// meaning; the mode and the remembered layout play no part.
pub proof fn lemma_shift_capslock_toggle(
    state: AppStateView,
    event: KeyEvent,
    shift_state: i16,
    current: Hkl,
    previous_mode: bool,
    prev_layout: Option<Hkl>,
)
    requires
        !state.paused,
        event.code >= 0,
        event.vk_code == 0x14,
        event.message == 0x0100,
    ensures
        hook_decision(state, event, shift_state, current).0.toggle_capslock == (shift_state < 0
            && state.default_capslock_behaviour),
        hook_decision(
            AppStateView { previous_mode, prev_layout, ..state },
            event,
            shift_state,
            current,
        ).0.toggle_capslock == hook_decision(state, event, shift_state, current).0.toggle_capslock,
{
}

/// The layout a taken CapsLock press leads to, case by case: cycling mode
/// presses Win+Space and remembers nothing new; "previous layout" mode with
/// nothing remembered presses Win+Space and remembers the layout it leaves;
/// with the current layout remembered it presses Win+Space; with another
/// layout remembered it asks for that layout and keeps remembering it.
pub proof fn lemma_press_outcomes(state: AppStateView, event: KeyEvent, shift_state: i16, current: Hkl)
    requires
        !state.paused,
        event.code >= 0,
        event.vk_code == 0x14,
        event.message == 0x0100,
    ensures
        ({
            let (d, after) = hook_decision(state, event, shift_state, current);
            &&& after.paused == state.paused
            &&& after.previous_mode == state.previous_mode
            &&& after.default_capslock_behaviour == state.default_capslock_behaviour
            &&& !state.previous_mode ==> d.switch == Some(LayoutSwitch::Imitate) && after == state
            &&& state.previous_mode && state.prev_layout is None ==> d.switch == Some(
                LayoutSwitch::Imitate,
            ) && after.prev_layout == Some(current)
            &&& state.previous_mode && state.prev_layout == Some(current) ==> d.switch == Some(
                LayoutSwitch::Imitate,
            ) && after == state
            &&& forall|p: Hkl|
                state.previous_mode && state.prev_layout == Some(p) && p != current ==> d.switch
                    == Some(LayoutSwitch::ChangeTo(p)) && after == state
        }),
{
}

/// A layout request that succeeded (a zero answer) makes the layout that was
/// left the one to go back to, and changes nothing else.
pub proof fn lemma_successful_change_remembers_left_layout(state: AppStateView, current: Hkl)
    ensures
        after_change(state, current, 0) == (AppStateView { prev_layout: Some(current), ..state }),
{
}

/// A failed layout request changes nothing.
pub proof fn lemma_failed_change_keeps_state(state: AppStateView, current: Hkl, answer: isize)
    requires
        answer != 0,
    ensures
        after_change(state, current, answer) == state,
{
}

} // verus!
