use caps_layout_switch::state::{AppState, Hkl};

fn args(list: &[&str]) -> Vec<String> {
    list.iter().map(|s| s.to_string()).collect()
}

#[test]
fn new_defaults_without_arguments() {
    let state = AppState::new(args(&["switcher"]));
    assert!(!state.is_paused());
    assert!(!state.is_previous_mode());
    assert_eq!(state.prev_layout(), None);
    assert!(state.is_default_capslock_behaviour_enabled());
}

#[test]
fn new_with_previous_flag_starts_in_previous_mode() {
    let state = AppState::new(args(&["switcher", "--previous"]));
    assert!(state.is_previous_mode());
    assert!(!state.is_paused());
}

#[test]
fn new_with_empty_argument_list() {
    let state = AppState::new(Vec::new());
    assert!(!state.is_previous_mode());
}

#[test]
fn new_ignores_other_or_later_flags() {
    assert!(!AppState::new(args(&["switcher", "--prev"])).is_previous_mode());
    assert!(!AppState::new(args(&["switcher", "--previous "])).is_previous_mode());
    assert!(!AppState::new(args(&["switcher", "x", "--previous"])).is_previous_mode());
    assert!(AppState::new(args(&["switcher", "--previous", "x"])).is_previous_mode());
}

#[test]
fn toggle_pause_returns_new_value_and_undoes_itself() {
    let mut state = AppState::new(args(&["switcher"]));
    assert!(state.toggle_pause());
    assert!(state.is_paused());
    assert!(!state.toggle_pause());
    assert!(!state.is_paused());
    assert!(!state.is_previous_mode());
    assert!(state.is_default_capslock_behaviour_enabled());
}

#[test]
fn toggle_previous_mode_returns_new_value_and_undoes_itself() {
    let mut state = AppState::new(args(&["switcher"]));
    assert!(state.toggle_previous_mode());
    assert!(state.is_previous_mode());
    assert!(!state.toggle_previous_mode());
    assert!(!state.is_paused());
}

#[test]
fn toggle_default_capslock_returns_new_value_and_undoes_itself() {
    let mut state = AppState::new(args(&["switcher"]));
    assert!(!state.toggle_default_capslock_behaviour());
    assert!(!state.is_default_capslock_behaviour_enabled());
    assert!(state.toggle_default_capslock_behaviour());
    assert!(state.is_default_capslock_behaviour_enabled());
}

#[test]
fn toggles_commute() {
    let mut a = AppState::new(args(&["switcher"]));
    a.toggle_pause();
    a.toggle_previous_mode();
    let mut b = AppState::new(args(&["switcher"]));
    b.toggle_previous_mode();
    b.toggle_pause();
    assert_eq!(a.is_paused(), b.is_paused());
    assert_eq!(a.is_previous_mode(), b.is_previous_mode());
}

#[test]
fn set_prev_layout_changes_only_the_layout() {
    let mut state = AppState::new(args(&["switcher", "--previous"]));
    state.set_prev_layout(Some(Hkl(0x0409)));
    assert_eq!(state.prev_layout(), Some(Hkl(0x0409)));
    assert!(state.is_previous_mode());
    state.set_prev_layout(None);
    assert_eq!(state.prev_layout(), None);
}
