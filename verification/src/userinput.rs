//! The built-in input decoders: a string accumulator over digit keys and a
//! button decoder with the fixed default key mapping.

use vstd::prelude::*;
use vstd::string::StringExecFns;

use crate::buttons::Button;
use crate::keys::{digit_of, is_key_release, InputEvent, BTN_THUMB, BTN_THUMB2, BTN_TOP,
    BTN_TRIGGER, EV_KEY, KEY_0, KEY_1, KEY_2, KEY_3, KEY_4, KEY_5, KEY_6, KEY_7, KEY_8, KEY_9,
    KEY_ENTER};
use crate::tagreader::{digit_str, tag_step};

verus! {

/// Accumulates digits typed on a keyboard-like device and emits the
/// collected string on each released terminator key.
pub struct StringReader {
    chars_read: String,
}

impl View for StringReader {
    type V = Seq<char>;

    closed spec fn view(&self) -> Seq<char> {
        self.chars_read@
    }
}

impl StringReader {
    /// A fresh decoder with an empty buffer.
    pub fn new() -> (r: Self)
        ensures
            r@ == Seq::<char>::empty(),
    {
        Self { chars_read: String::new() }
    }

    /// Consumes one raw event; follows [`tag_step`] exactly.
    pub fn handle_event(&mut self, event: InputEvent) -> (r: Option<String>)
        ensures
            final(self)@ == tag_step(old(self)@, event).0,
            r.deep_view() == tag_step(old(self)@, event).1,
    {
        if !is_key_released(event) {
            return None;
        }

        if event.code == KEY_ENTER {
            let input = self.chars_read.clone();
            self.chars_read = String::new();
            Some(input)
        } else {
            match digit_str(event.code) {
                Some(d) => {
                    self.chars_read.append(d);
                    proof {
                        assert(self.chars_read@ =~= old(self)@.push(d@[0]));
                    }
                    None
                },
                None => None,
            }
        }
    }
}

/// The digit character a key code stands for, if any.
pub fn get_char(key_code: u16) -> (r: Option<char>)
    ensures
        r == digit_of(key_code),
{
    if key_code == KEY_1 {
        Some('1')
    } else if key_code == KEY_2 {
        Some('2')
    } else if key_code == KEY_3 {
        Some('3')
    } else if key_code == KEY_4 {
        Some('4')
    } else if key_code == KEY_5 {
        Some('5')
    } else if key_code == KEY_6 {
        Some('6')
    } else if key_code == KEY_7 {
        Some('7')
    } else if key_code == KEY_8 {
        Some('8')
    } else if key_code == KEY_9 {
        Some('9')
    } else if key_code == KEY_0 {
        Some('0')
    } else {
        None
    }
}

/// The button the fixed default mapping assigns to a key code, if any.
pub open spec fn default_button_for_code(code: u16) -> Option<Button> {
    if code == BTN_TRIGGER {
        Some(Button::Button1)
    } else if code == BTN_THUMB {
        Some(Button::Button2)
    } else if code == BTN_THUMB2 {
        Some(Button::Button3)
    } else if code == BTN_TOP {
        Some(Button::Button4)
    } else {
        None
    }
}

/// Decodes a raw event against the fixed default button mapping: some button
/// exactly on a key-release transition of one of the four default codes.
pub fn handle_button_press(event: InputEvent) -> (r: Option<Button>)
    ensures
        r == (if is_key_release(event) {
            default_button_for_code(event.code)
        } else {
            Option::<Button>::None
        }),
{
    if !is_key_released(event) {
        return None;
    }
    find_button_for_key_code(event.code)
}

/// A key-release transition: event type `EV_KEY` with value 0.
pub fn is_key_released(event: InputEvent) -> (r: bool)
    ensures
        r == is_key_release(event),
{
    event.event_type == EV_KEY && event.value == 0
}

/// Looks a key code up in the fixed default button mapping.
pub fn find_button_for_key_code(key_code: u16) -> (r: Option<Button>)
    ensures
        r == default_button_for_code(key_code),
{
    if key_code == BTN_TRIGGER {
        Some(Button::Button1)
    } else if key_code == BTN_THUMB {
        Some(Button::Button2)
    } else if key_code == BTN_THUMB2 {
        Some(Button::Button3)
    } else if key_code == BTN_TOP {
        Some(Button::Button4)
    } else {
        None
    }
}

} // verus!
