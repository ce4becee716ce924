use vstd::prelude::*;
use vstd::string::*;

verus! {

/// The command-line flag that starts the switcher in "previous layout" mode.
pub open spec fn previous_flag() -> Seq<char> {
    "--previous"@
}

/// True when the program arguments ask for "previous layout" mode: the first
/// argument after the program name is exactly `--previous`.
pub open spec fn args_ask_previous_mode(args: Seq<Seq<char>>) -> bool {
    args.len() > 1 && args[1] == previous_flag()
}

/// A keyboard layout, identified by the raw value of its system handle.
#[derive(Clone, Copy, Debug, PartialEq, Eq, Structural)]
pub struct Hkl(pub isize);

/// What the switcher's settings are, as plain values.
pub struct AppStateView {
    pub paused: bool,
    pub previous_mode: bool,
    pub prev_layout: Option<Hkl>,
    pub default_capslock_behaviour: bool,
}

/// The switcher's settings: whether it is paused, whether CapsLock goes back
/// to the previously used layout (rather than cycling), the layout to go back
/// to, and whether Shift+CapsLock keeps its usual meaning.
pub struct AppState {
    paused: bool,
    previous_mode: bool,
    prev_layout: Option<Hkl>,
    default_capslock_behaviour: bool,
}

impl View for AppState {
    type V = AppStateView;

    closed spec fn view(&self) -> AppStateView {
        AppStateView {
            paused: self.paused,
            previous_mode: self.previous_mode,
            prev_layout: self.prev_layout,
            default_capslock_behaviour: self.default_capslock_behaviour,
        }
    }
}

impl AppStateView {
    /// The same settings with the pause flag flipped.
    pub open spec fn toggled_pause(self) -> AppStateView {
        AppStateView { paused: !self.paused, ..self }
    }

    /// The same settings with the switching mode flipped.
    pub open spec fn toggled_previous_mode(self) -> AppStateView {
        AppStateView { previous_mode: !self.previous_mode, ..self }
    }

    /// The same settings with the Shift+CapsLock behaviour flipped.
    pub open spec fn toggled_default_capslock(self) -> AppStateView {
        AppStateView { default_capslock_behaviour: !self.default_capslock_behaviour, ..self }
    }

    /// The same settings with another remembered layout.
    pub open spec fn with_prev_layout(self, layout: Option<Hkl>) -> AppStateView {
        AppStateView { prev_layout: layout, ..self }
    }
}

/// The program arguments as character sequences.
pub open spec fn arg_views(args: Seq<String>) -> Seq<Seq<char>> {
    args.map_values(|a: String| a@)
}

impl AppState {
    /// The settings at start-up, from the program arguments: not paused,
    /// no remembered layout, Shift+CapsLock keeps its usual meaning, and
    /// "previous layout" mode exactly when the first argument is `--previous`.
    pub fn new(args: Vec<String>) -> (s: Self)
        ensures
            s@ == (AppStateView {
                paused: false,
                previous_mode: args_ask_previous_mode(arg_views(args@)),
                prev_layout: None,
                default_capslock_behaviour: true,
            }),
    {
        let previous_mode = if args.len() > 1 {
            args[1] == String::from_str("--previous")
        } else {
            false
        };
        AppState {
            paused: false,
            previous_mode,
            prev_layout: None,
            default_capslock_behaviour: true,
        }
    }

    /// Whether the switcher is paused.
    pub fn is_paused(&self) -> (r: bool)
        ensures
            r == self@.paused,
    {
        self.paused
    }

    /// Whether CapsLock goes back to the previously used layout.
    pub fn is_previous_mode(&self) -> (r: bool)
        ensures
            r == self@.previous_mode,
    {
        self.previous_mode
    }

    /// The layout that "previous layout" mode goes back to, if one is remembered.
    pub fn prev_layout(&self) -> (r: Option<Hkl>)
        ensures
            r == self@.prev_layout,
    {
        self.prev_layout
    }

    /// Remembers another layout (or none); nothing else changes.
    pub fn set_prev_layout(&mut self, layout: Option<Hkl>)
        ensures
            final(self)@ == old(self)@.with_prev_layout(layout),
    {
        self.prev_layout = layout;
    }

    /// Flips the pause flag and returns its new value; nothing else changes.
    pub fn toggle_pause(&mut self) -> (r: bool)
        ensures
            final(self)@ == old(self)@.toggled_pause(),
            r == final(self)@.paused,
            r == !old(self)@.paused,
    {
        self.paused = !self.paused;
        self.is_paused()
    }

    /// Flips the switching mode and returns its new value; nothing else changes.
    pub fn toggle_previous_mode(&mut self) -> (r: bool)
        ensures
            final(self)@ == old(self)@.toggled_previous_mode(),
            r == final(self)@.previous_mode,
            r == !old(self)@.previous_mode,
    {
        self.previous_mode = !self.previous_mode;
        self.is_previous_mode()
    }

    /// Whether Shift+CapsLock keeps its usual meaning (toggling CapsLock).
    pub fn is_default_capslock_behaviour_enabled(&self) -> (r: bool)
        ensures
            r == self@.default_capslock_behaviour,
    {
        self.default_capslock_behaviour
    }

    /// Flips the Shift+CapsLock behaviour and returns its new value; nothing
    /// else changes.
    pub fn toggle_default_capslock_behaviour(&mut self) -> (r: bool)
        ensures
            final(self)@ == old(self)@.toggled_default_capslock(),
            r == final(self)@.default_capslock_behaviour,
            r == !old(self)@.default_capslock_behaviour,
    {
        self.default_capslock_behaviour = !self.default_capslock_behaviour;
        self.is_default_capslock_behaviour_enabled()
    }
}

/// Each toggle undoes itself: flipping the same setting twice gives back the
/// settings one started from.
pub proof fn lemma_toggles_are_involutions(v: AppStateView)
    ensures
        v.toggled_pause().toggled_pause() == v,
        v.toggled_previous_mode().toggled_previous_mode() == v,
        v.toggled_default_capslock().toggled_default_capslock() == v,
{
}

/// The toggles act on separate settings: flipping two of them gives the same
/// settings in either order.
pub proof fn lemma_toggles_commute(v: AppStateView)
    ensures
        v.toggled_pause().toggled_previous_mode() == v.toggled_previous_mode().toggled_pause(),
        v.toggled_pause().toggled_default_capslock() == v.toggled_default_capslock().toggled_pause(),
        v.toggled_previous_mode().toggled_default_capslock()
            == v.toggled_default_capslock().toggled_previous_mode(),
{
}

} // verus!
