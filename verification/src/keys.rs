//! Raw key events and the key codes the kiosk cares about.
//!
//! A raw event is modelled by the three plain values the decoders read from
//! it: the event type, the key code and the value (0 meaning "released").
//! The numeric constants are the Linux input event codes that the devices
//! deliver.

use vstd::prelude::*;

verus! {

/// Event type of key press/release events (`EV_KEY`).
pub const EV_KEY: u16 = 1;

pub const KEY_1: u16 = 2;
pub const KEY_2: u16 = 3;
pub const KEY_3: u16 = 4;
pub const KEY_4: u16 = 5;
pub const KEY_5: u16 = 6;
pub const KEY_6: u16 = 7;
pub const KEY_7: u16 = 8;
pub const KEY_8: u16 = 9;
pub const KEY_9: u16 = 10;
pub const KEY_0: u16 = 11;
pub const KEY_ENTER: u16 = 28;

pub const BTN_TRIGGER: u16 = 0x120;
pub const BTN_THUMB: u16 = 0x121;
pub const BTN_THUMB2: u16 = 0x122;
pub const BTN_TOP: u16 = 0x123;
pub const BTN_TOP2: u16 = 0x124;
pub const BTN_PINKIE: u16 = 0x125;
pub const BTN_BASE: u16 = 0x126;
pub const BTN_BASE2: u16 = 0x127;
pub const BTN_BASE3: u16 = 0x128;
pub const BTN_BASE4: u16 = 0x129;
pub const BTN_BASE5: u16 = 0x12a;
pub const BTN_BASE6: u16 = 0x12b;
pub const BTN_DEAD: u16 = 0x12f;
pub const BTN_SOUTH: u16 = 0x130;
pub const BTN_EAST: u16 = 0x131;
pub const BTN_C: u16 = 0x132;
pub const BTN_NORTH: u16 = 0x133;
pub const BTN_WEST: u16 = 0x134;
pub const BTN_Z: u16 = 0x135;
pub const BTN_TL: u16 = 0x136;
pub const BTN_TR: u16 = 0x137;
pub const BTN_TL2: u16 = 0x138;
pub const BTN_TR2: u16 = 0x139;
pub const BTN_SELECT: u16 = 0x13a;
pub const BTN_START: u16 = 0x13b;
pub const BTN_MODE: u16 = 0x13c;
pub const BTN_THUMBL: u16 = 0x13d;
pub const BTN_THUMBR: u16 = 0x13e;
pub const BTN_DPAD_UP: u16 = 0x220;
pub const BTN_DPAD_DOWN: u16 = 0x221;
pub const BTN_DPAD_LEFT: u16 = 0x222;
pub const BTN_DPAD_RIGHT: u16 = 0x223;
pub const BTN_TRIGGER_HAPPY1: u16 = 0x2c0;
pub const BTN_TRIGGER_HAPPY2: u16 = 0x2c1;
pub const BTN_TRIGGER_HAPPY3: u16 = 0x2c2;
pub const BTN_TRIGGER_HAPPY4: u16 = 0x2c3;
pub const BTN_TRIGGER_HAPPY5: u16 = 0x2c4;
pub const BTN_TRIGGER_HAPPY6: u16 = 0x2c5;
pub const BTN_TRIGGER_HAPPY7: u16 = 0x2c6;
pub const BTN_TRIGGER_HAPPY8: u16 = 0x2c7;

/// A raw input event as the decoders see it: the fields of a Linux input
/// event that carry meaning for this crate.
#[derive(Clone, Copy, Debug, PartialEq, Eq, Structural)]
pub struct InputEvent {
    /// The event type; key presses and releases carry [`EV_KEY`].
    pub event_type: u16,
    /// The key code, one of the `KEY_*`/`BTN_*` constants for known keys.
    pub code: u16,
    /// The event value: 0 on release, 1 on press, 2 on auto-repeat.
    pub value: i32,
}

/// A key-release transition: the only kind of event either decoder acts on.
pub open spec fn is_key_release(ev: InputEvent) -> bool {
    ev.event_type == EV_KEY && ev.value == 0
}

/// The digit character a key code stands for, if any.
pub open spec fn digit_of(code: u16) -> Option<char> {
    if code == KEY_1 {
        Some('1')
    } else if code == KEY_2 {
        Some('2')
    } else if code == KEY_3 {
        Some('3')
    } else if code == KEY_4 {
        Some('4')
    } else if code == KEY_5 {
        Some('5')
    } else if code == KEY_6 {
        Some('6')
    } else if code == KEY_7 {
        Some('7')
    } else if code == KEY_8 {
        Some('8')
    } else if code == KEY_9 {
        Some('9')
    } else if code == KEY_0 {
        Some('0')
    } else {
        None
    }
}

} // verus!
