//! Decision logic of a CapsLock keyboard-layout switcher that lives in the
//! system tray: the shared settings, the handling of a CapsLock press, the
//! tray menu's texts and commands, and the icon decoding.

pub mod icon;
pub mod state;
pub mod switch;
pub mod text;
pub mod tray;
