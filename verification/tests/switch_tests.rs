use caps_layout_switch::state::{AppState, Hkl};
use caps_layout_switch::switch::{
    begin_layout_switch, capslock_keystroke, hook_step, HookDecision, create_kbd_input, finish_layout_switch, intercepts,
    is_capslock_press, layout_change_keystrokes, shift_is_pressed, wants_capslock_toggle, KeyEvent, KeyStroke,
    LayoutSwitch, KEYEVENTF_EXTENDEDKEY, KEYEVENTF_KEYUP, VK_CAPITAL, VK_LWIN, VK_SPACE,
    WM_KEYDOWN,
};

use windows::Win32::UI::Input::KeyboardAndMouse as kbd;
use windows::Win32::UI::WindowsAndMessaging as wm;

fn state(list: &[&str]) -> AppState {
    AppState::new(list.iter().map(|s| s.to_string()).collect())
}

fn caps_down() -> KeyEvent {
    KeyEvent { code: 0, vk_code: 0x14, message: 0x0100 }
}

#[test]
fn constants_agree_with_the_system_headers() {
    assert_eq!(VK_CAPITAL, kbd::VK_CAPITAL.0);
    assert_eq!(VK_SPACE, kbd::VK_SPACE.0);
    assert_eq!(VK_LWIN, kbd::VK_LWIN.0);
    assert_eq!(WM_KEYDOWN, wm::WM_KEYDOWN);
    assert_eq!(KEYEVENTF_KEYUP, kbd::KEYEVENTF_KEYUP.0);
    assert_eq!(KEYEVENTF_EXTENDEDKEY, kbd::KEYEVENTF_EXTENDEDKEY.0);
}

#[test]
fn capslock_down_is_a_press() {
    assert!(is_capslock_press(&caps_down()));
    assert!(is_capslock_press(&KeyEvent { code: 3, ..caps_down() }));
}

#[test]
fn other_events_are_not_presses() {
    assert!(!is_capslock_press(&KeyEvent { code: -1, ..caps_down() }));
    assert!(!is_capslock_press(&KeyEvent { vk_code: 0x41, ..caps_down() }));
    assert!(!is_capslock_press(&KeyEvent { message: 0x0101, ..caps_down() }));
    assert!(!is_capslock_press(&KeyEvent { message: 0x0104, ..caps_down() }));
}

#[test]
fn paused_switcher_lets_everything_through() {
    let mut s = state(&["switcher"]);
    assert!(intercepts(&s, &caps_down()));
    s.toggle_pause();
    assert!(!intercepts(&s, &caps_down()));
    assert!(!intercepts(&s, &KeyEvent { vk_code: 0x41, ..caps_down() }));
}

#[test]
fn shift_capslock_toggles_only_with_default_behaviour() {
    let mut s = state(&["switcher"]);
    assert!(wants_capslock_toggle(&s, i16::MIN));
    assert!(wants_capslock_toggle(&s, -1));
    assert!(!wants_capslock_toggle(&s, 0));
    assert!(!wants_capslock_toggle(&s, 1));
    s.toggle_default_capslock_behaviour();
    assert!(!wants_capslock_toggle(&s, i16::MIN));
}

#[test]
fn cycling_mode_always_imitates() {
    let mut s = state(&["switcher"]);
    assert_eq!(begin_layout_switch(&mut s, Hkl(1)), LayoutSwitch::Imitate);
    assert_eq!(s.prev_layout(), None);
    s.set_prev_layout(Some(Hkl(2)));
    assert_eq!(begin_layout_switch(&mut s, Hkl(1)), LayoutSwitch::Imitate);
    assert_eq!(s.prev_layout(), Some(Hkl(2)));
}

#[test]
fn previous_mode_first_press_remembers_and_imitates() {
    let mut s = state(&["switcher", "--previous"]);
    assert_eq!(begin_layout_switch(&mut s, Hkl(7)), LayoutSwitch::Imitate);
    assert_eq!(s.prev_layout(), Some(Hkl(7)));
}

#[test]
fn previous_mode_in_remembered_layout_imitates() {
    let mut s = state(&["switcher", "--previous"]);
    s.set_prev_layout(Some(Hkl(7)));
    assert_eq!(begin_layout_switch(&mut s, Hkl(7)), LayoutSwitch::Imitate);
    assert_eq!(s.prev_layout(), Some(Hkl(7)));
}

#[test]
fn previous_mode_goes_back_and_forth() {
    let mut s = state(&["switcher", "--previous"]);
    s.set_prev_layout(Some(Hkl(0x0409)));
    assert_eq!(begin_layout_switch(&mut s, Hkl(0x0419)), LayoutSwitch::ChangeTo(Hkl(0x0409)));
    finish_layout_switch(&mut s, Hkl(0x0419), 0);
    assert_eq!(s.prev_layout(), Some(Hkl(0x0419)));
    assert_eq!(begin_layout_switch(&mut s, Hkl(0x0409)), LayoutSwitch::ChangeTo(Hkl(0x0419)));
    finish_layout_switch(&mut s, Hkl(0x0409), 0);
    assert_eq!(s.prev_layout(), Some(Hkl(0x0409)));
}

#[test]
fn failed_layout_request_keeps_the_remembered_layout() {
    let mut s = state(&["switcher", "--previous"]);
    s.set_prev_layout(Some(Hkl(5)));
    assert_eq!(begin_layout_switch(&mut s, Hkl(6)), LayoutSwitch::ChangeTo(Hkl(5)));
    finish_layout_switch(&mut s, Hkl(6), 1);
    assert_eq!(s.prev_layout(), Some(Hkl(5)));
    finish_layout_switch(&mut s, Hkl(6), -1);
    assert_eq!(s.prev_layout(), Some(Hkl(5)));
}

#[test]
fn keystrokes_of_win_space() {
    let strokes = layout_change_keystrokes();
    assert_eq!(
        strokes,
        vec![
            KeyStroke { vk: 0x5B, flags: 0 },
            KeyStroke { vk: 0x20, flags: 0 },
            KeyStroke { vk: 0x20, flags: 2 },
            KeyStroke { vk: 0x5B, flags: 2 },
        ]
    );
}

#[test]
fn single_keystrokes() {
    assert_eq!(create_kbd_input(0x41, false), KeyStroke { vk: 0x41, flags: 0 });
    assert_eq!(create_kbd_input(0x41, true), KeyStroke { vk: 0x41, flags: 2 });
    assert_eq!(capslock_keystroke(), KeyStroke { vk: 0x14, flags: 1 });
}

#[test]
fn shift_state_sign_bit() {
    assert!(shift_is_pressed(i16::MIN));
    assert!(shift_is_pressed(-32767));
    assert!(!shift_is_pressed(0));
    assert!(!shift_is_pressed(1));
    assert!(!shift_is_pressed(i16::MAX));
}

#[test]
fn hook_step_passes_on_other_keys_and_when_paused() {
    let mut s = state(&["switcher", "--previous"]);
    let other = KeyEvent { vk_code: 0x41, ..caps_down() };
    let d = hook_step(&mut s, &other, i16::MIN, Hkl(3));
    assert_eq!(d, HookDecision { pass_on: true, toggle_capslock: false, switch: None });
    assert_eq!(s.prev_layout(), None);
    s.toggle_pause();
    let d = hook_step(&mut s, &caps_down(), i16::MIN, Hkl(3));
    assert_eq!(d, HookDecision { pass_on: true, toggle_capslock: false, switch: None });
    assert_eq!(s.prev_layout(), None);
}

#[test]
fn hook_step_on_capslock_press() {
    let mut s = state(&["switcher"]);
    let d = hook_step(&mut s, &caps_down(), i16::MIN, Hkl(3));
    assert_eq!(d, HookDecision { pass_on: false, toggle_capslock: true, switch: Some(LayoutSwitch::Imitate) });
    let d = hook_step(&mut s, &caps_down(), 0, Hkl(3));
    assert_eq!(d, HookDecision { pass_on: false, toggle_capslock: false, switch: Some(LayoutSwitch::Imitate) });
    assert_eq!(s.prev_layout(), None);
}

#[test]
fn hook_step_in_previous_mode_goes_back() {
    let mut s = state(&["switcher", "--previous"]);
    let d = hook_step(&mut s, &caps_down(), 0, Hkl(1));
    assert_eq!(d.switch, Some(LayoutSwitch::Imitate));
    assert_eq!(s.prev_layout(), Some(Hkl(1)));
    let d = hook_step(&mut s, &caps_down(), 0, Hkl(2));
    assert_eq!(d.switch, Some(LayoutSwitch::ChangeTo(Hkl(1))));
    finish_layout_switch(&mut s, Hkl(2), 0);
    assert_eq!(s.prev_layout(), Some(Hkl(2)));
    s.toggle_default_capslock_behaviour();
    let d = hook_step(&mut s, &caps_down(), i16::MIN, Hkl(1));
    assert_eq!(d, HookDecision { pass_on: false, toggle_capslock: false, switch: Some(LayoutSwitch::ChangeTo(Hkl(2))) });
}
