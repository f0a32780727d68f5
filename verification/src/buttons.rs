//! Logical buttons and the configured mapping from key codes to buttons.

use vstd::prelude::*;

use crate::keys::{
    EV_KEY,
    is_key_release, InputEvent, BTN_BASE, BTN_BASE2, BTN_BASE3, BTN_BASE4, BTN_BASE5, BTN_BASE6,
    BTN_C, BTN_DEAD, BTN_DPAD_DOWN, BTN_DPAD_LEFT, BTN_DPAD_RIGHT, BTN_DPAD_UP, BTN_EAST,
    BTN_MODE, BTN_NORTH, BTN_PINKIE, BTN_SELECT, BTN_SOUTH, BTN_START, BTN_THUMB, BTN_THUMB2,
    BTN_THUMBL, BTN_THUMBR, BTN_TL, BTN_TL2, BTN_TOP, BTN_TOP2, BTN_TR, BTN_TR2, BTN_TRIGGER,
    BTN_TRIGGER_HAPPY1, BTN_TRIGGER_HAPPY2, BTN_TRIGGER_HAPPY3, BTN_TRIGGER_HAPPY4,
    BTN_TRIGGER_HAPPY5, BTN_TRIGGER_HAPPY6, BTN_TRIGGER_HAPPY7, BTN_TRIGGER_HAPPY8, BTN_WEST,
    BTN_Z,
};
use crate::text::str_eq;

verus! {

/// One of the physical buttons of the kiosk.
#[derive(Clone, Copy, Debug, PartialEq, Eq, Structural)]
pub enum Button {
    Button1,
    Button2,
    Button3,
    Button4,
    Button5,
    Button6,
    Button7,
    Button8,
}

/// The key code a configuration-supplied key-code name stands for, if the
/// name is known.
pub open spec fn key_code_for_name(name: Seq<char>) -> Option<u16> {
    if name == "trigger"@ {
        Some(BTN_TRIGGER)
    } else if name == "thumb"@ {
        Some(BTN_THUMB)
    } else if name == "thumb2"@ {
        Some(BTN_THUMB2)
    } else if name == "top"@ {
        Some(BTN_TOP)
    } else if name == "top2"@ {
        Some(BTN_TOP2)
    } else if name == "pinkie"@ {
        Some(BTN_PINKIE)
    } else if name == "base"@ {
        Some(BTN_BASE)
    } else if name == "base2"@ {
        Some(BTN_BASE2)
    } else if name == "base3"@ {
        Some(BTN_BASE3)
    } else if name == "base4"@ {
        Some(BTN_BASE4)
    } else if name == "base5"@ {
        Some(BTN_BASE5)
    } else if name == "base6"@ {
        Some(BTN_BASE6)
    } else if name == "dead"@ {
        Some(BTN_DEAD)
    } else if name == "south"@ {
        Some(BTN_SOUTH)
    } else if name == "a"@ {
        Some(BTN_SOUTH)
    } else if name == "east"@ {
        Some(BTN_EAST)
    } else if name == "b"@ {
        Some(BTN_EAST)
    } else if name == "c"@ {
        Some(BTN_C)
    } else if name == "north"@ {
        Some(BTN_NORTH)
    } else if name == "x"@ {
        Some(BTN_NORTH)
    } else if name == "west"@ {
        Some(BTN_WEST)
    } else if name == "y"@ {
        Some(BTN_WEST)
    } else if name == "z"@ {
        Some(BTN_Z)
    } else if name == "tl"@ {
        Some(BTN_TL)
    } else if name == "tr"@ {
        Some(BTN_TR)
    } else if name == "tl2"@ {
        Some(BTN_TL2)
    } else if name == "tr2"@ {
        Some(BTN_TR2)
    } else if name == "select"@ {
        Some(BTN_SELECT)
    } else if name == "start"@ {
        Some(BTN_START)
    } else if name == "mode"@ {
        Some(BTN_MODE)
    } else if name == "thumbl"@ {
        Some(BTN_THUMBL)
    } else if name == "thumbr"@ {
        Some(BTN_THUMBR)
    } else if name == "dpad_up"@ {
        Some(BTN_DPAD_UP)
    } else if name == "dpad_down"@ {
        Some(BTN_DPAD_DOWN)
    } else if name == "dpad_left"@ {
        Some(BTN_DPAD_LEFT)
    } else if name == "dpad_right"@ {
        Some(BTN_DPAD_RIGHT)
    } else if name == "trigger_happy1"@ {
        Some(BTN_TRIGGER_HAPPY1)
    } else if name == "trigger_happy2"@ {
        Some(BTN_TRIGGER_HAPPY2)
    } else if name == "trigger_happy3"@ {
        Some(BTN_TRIGGER_HAPPY3)
    } else if name == "trigger_happy4"@ {
        Some(BTN_TRIGGER_HAPPY4)
    } else if name == "trigger_happy5"@ {
        Some(BTN_TRIGGER_HAPPY5)
    } else if name == "trigger_happy6"@ {
        Some(BTN_TRIGGER_HAPPY6)
    } else if name == "trigger_happy7"@ {
        Some(BTN_TRIGGER_HAPPY7)
    } else if name == "trigger_happy8"@ {
        Some(BTN_TRIGGER_HAPPY8)
    } else {
        None
    }
}

/// Resolves a configuration-supplied key-code name to its key code.
pub fn find_key_code_by_name(name: &str) -> (r: Option<u16>)
    ensures
        r == key_code_for_name(name@),
{
    if str_eq(name, "trigger") {
        Some(BTN_TRIGGER)
    } else if str_eq(name, "thumb") {
        Some(BTN_THUMB)
    } else if str_eq(name, "thumb2") {
        Some(BTN_THUMB2)
    } else if str_eq(name, "top") {
        Some(BTN_TOP)
    } else if str_eq(name, "top2") {
        Some(BTN_TOP2)
    } else if str_eq(name, "pinkie") {
        Some(BTN_PINKIE)
    } else if str_eq(name, "base") {
        Some(BTN_BASE)
    } else if str_eq(name, "base2") {
        Some(BTN_BASE2)
    } else if str_eq(name, "base3") {
        Some(BTN_BASE3)
    } else if str_eq(name, "base4") {
        Some(BTN_BASE4)
    } else if str_eq(name, "base5") {
        Some(BTN_BASE5)
    } else if str_eq(name, "base6") {
        Some(BTN_BASE6)
    } else if str_eq(name, "dead") {
        Some(BTN_DEAD)
    } else if str_eq(name, "south") {
        Some(BTN_SOUTH)
    } else if str_eq(name, "a") {
        Some(BTN_SOUTH)
    } else if str_eq(name, "east") {
        Some(BTN_EAST)
    } else if str_eq(name, "b") {
        Some(BTN_EAST)
    } else if str_eq(name, "c") {
        Some(BTN_C)
    } else if str_eq(name, "north") {
        Some(BTN_NORTH)
    } else if str_eq(name, "x") {
        Some(BTN_NORTH)
    } else if str_eq(name, "west") {
        Some(BTN_WEST)
    } else if str_eq(name, "y") {
        Some(BTN_WEST)
    } else if str_eq(name, "z") {
        Some(BTN_Z)
    } else if str_eq(name, "tl") {
        Some(BTN_TL)
    } else if str_eq(name, "tr") {
        Some(BTN_TR)
    } else if str_eq(name, "tl2") {
        Some(BTN_TL2)
    } else if str_eq(name, "tr2") {
        Some(BTN_TR2)
    } else if str_eq(name, "select") {
        Some(BTN_SELECT)
    } else if str_eq(name, "start") {
        Some(BTN_START)
    } else if str_eq(name, "mode") {
        Some(BTN_MODE)
    } else if str_eq(name, "thumbl") {
        Some(BTN_THUMBL)
    } else if str_eq(name, "thumbr") {
        Some(BTN_THUMBR)
    } else if str_eq(name, "dpad_up") {
        Some(BTN_DPAD_UP)
    } else if str_eq(name, "dpad_down") {
        Some(BTN_DPAD_DOWN)
    } else if str_eq(name, "dpad_left") {
        Some(BTN_DPAD_LEFT)
    } else if str_eq(name, "dpad_right") {
        Some(BTN_DPAD_RIGHT)
    } else if str_eq(name, "trigger_happy1") {
        Some(BTN_TRIGGER_HAPPY1)
    } else if str_eq(name, "trigger_happy2") {
        Some(BTN_TRIGGER_HAPPY2)
    } else if str_eq(name, "trigger_happy3") {
        Some(BTN_TRIGGER_HAPPY3)
    } else if str_eq(name, "trigger_happy4") {
        Some(BTN_TRIGGER_HAPPY4)
    } else if str_eq(name, "trigger_happy5") {
        Some(BTN_TRIGGER_HAPPY5)
    } else if str_eq(name, "trigger_happy6") {
        Some(BTN_TRIGGER_HAPPY6)
    } else if str_eq(name, "trigger_happy7") {
        Some(BTN_TRIGGER_HAPPY7)
    } else if str_eq(name, "trigger_happy8") {
        Some(BTN_TRIGGER_HAPPY8)
    } else {
        None
    }
}

/// A configuration fault found while the button mapping is built.
#[derive(Clone, Debug)]
pub enum ButtonMappingError {
    /// The configuration names a key code this crate does not know.
    UnknownKeyCodeName { name: String },
}

/// Turns the configured button-to-key-code-name pairs into key-code-to-
/// button pairs, resolving every name; an unknown name is a fatal
/// configuration fault and is reported, not dropped.
pub fn map_key_codes_to_buttons(
    buttons_to_key_code_names: &Vec<(Button, String)>,
) -> (r: Result<Vec<(u16, Button)>, ButtonMappingError>)
    ensures
        match r {
            Ok(m) => {
                &&& m@.len() == buttons_to_key_code_names@.len()
                &&& forall|i: int|
                    0 <= i < m@.len() ==> key_code_for_name(
                        #[trigger] buttons_to_key_code_names@[i].1@,
                    ) == Some(m@[i].0) && m@[i].1 == buttons_to_key_code_names@[i].0
            },
            Err(e) => {
                &&& e matches ButtonMappingError::UnknownKeyCodeName { name }
                &&& exists|i: int|
                    {
                        &&& 0 <= i < buttons_to_key_code_names@.len()
                        &&& key_code_for_name(#[trigger] buttons_to_key_code_names@[i].1@)
                            is None
                        &&& forall|k: int|
                            0 <= k < i ==> key_code_for_name(
                                #[trigger] buttons_to_key_code_names@[k].1@,
                            ) is Some
                        &&& name@ == buttons_to_key_code_names@[i].1@
                    }
            },
        },
{
    let n = buttons_to_key_code_names.len();
    let mut key_codes_to_buttons: Vec<(u16, Button)> = Vec::new();
    let mut i: usize = 0;
    while i < n
        invariant
            n == buttons_to_key_code_names.len(),
            i <= n,
            key_codes_to_buttons@.len() == i,
            forall|k: int|
                0 <= k < i ==> key_code_for_name(#[trigger] buttons_to_key_code_names@[k].1@)
                    == Some(key_codes_to_buttons@[k].0) && key_codes_to_buttons@[k].1
                    == buttons_to_key_code_names@[k].0,
        decreases n - i,
    {
        let entry = &buttons_to_key_code_names[i];
        match find_key_code_by_name(entry.1.as_str()) {
            Some(key_code) => {
                key_codes_to_buttons.push((key_code, entry.0));
            },
            None => {
                return Err(ButtonMappingError::UnknownKeyCodeName { name: entry.1.clone() });
            },
        }
        i = i + 1;
    }
    Ok(key_codes_to_buttons)
}

/// The first button an association list maps a key code to, if any.
pub open spec fn find_button(mapping: Seq<(u16, Button)>, code: u16) -> Option<Button>
    decreases mapping.len(),
{
    if mapping.len() == 0 {
        None
    } else if mapping[0].0 == code {
        Some(mapping[0].1)
    } else {
        find_button(mapping.subrange(1, mapping.len() as int), code)
    }
}

/// One step of the button decoder: the button a raw event stands for, if the
/// event is a release of a mapped key.
pub open spec fn button_step(mapping: Seq<(u16, Button)>, ev: InputEvent) -> Option<Button> {
    if is_key_release(ev) {
        find_button(mapping, ev.code)
    } else {
        None
    }
}

/// A key code that no entry of the mapping carries is decoded to no button.
pub proof fn lemma_unmapped_code_yields_no_button(mapping: Seq<(u16, Button)>, ev: InputEvent)
    requires
        forall|i: int| 0 <= i < mapping.len() ==> mapping[i].0 != ev.code,
    ensures
        button_step(mapping, ev) is None,
    decreases mapping.len(),
{
    if is_key_release(ev) && mapping.len() > 0 {
        lemma_unmapped_code_yields_no_button(
            mapping.subrange(1, mapping.len() as int),
            ev,
        );
    }
}

/// A press or repeat event is decoded to no button and reads no state.
pub proof fn lemma_press_yields_no_button(mapping: Seq<(u16, Button)>, ev: InputEvent)
    requires
        !is_key_release(ev),
    ensures
        button_step(mapping, ev) is None,
{
}

/// Decodes raw events of the button device against the configured mapping
/// from key codes to buttons.
pub struct ButtonHandler {
    key_codes_to_buttons: Vec<(u16, Button)>,
}

impl View for ButtonHandler {
    type V = Seq<(u16, Button)>;

    closed spec fn view(&self) -> Seq<(u16, Button)> {
        self.key_codes_to_buttons@
    }
}

impl ButtonHandler {
    pub fn new(key_codes_to_buttons: Vec<(u16, Button)>) -> (r: Self)
        ensures
            r@ == key_codes_to_buttons@,
    {
        Self { key_codes_to_buttons }
    }

    /// The button a raw event stands for: some button exactly when the event
    /// is a key-release transition of a mapped key code.
    pub fn handle_button_press(&self, event: InputEvent) -> (r: Option<Button>)
        ensures
            r == button_step(self@, event),
    {
        if !self.is_key_released(event) {
            return None;
        }
        self.find_button_for_key_code(event.code)
    }

    fn is_key_released(&self, event: InputEvent) -> (r: bool)
        ensures
            r == is_key_release(event),
    {
        event.event_type == EV_KEY && event.value == 0
    }

    fn find_button_for_key_code(&self, key_code: u16) -> (r: Option<Button>)
        ensures
            r == find_button(self@, key_code),
    {
        let n = self.key_codes_to_buttons.len();
        proof {
            assert(self@.subrange(0, n as int) =~= self@);
        }
        let mut i: usize = 0;
        while i < n
            invariant
                n == self.key_codes_to_buttons.len(),
                i <= n,
                find_button(self@, key_code) == find_button(
                    self@.subrange(i as int, n as int),
                    key_code,
                ),
            decreases n - i,
        {
            let (code, button) = self.key_codes_to_buttons[i];
            if code == key_code {
                return Some(button);
            }
            proof {
                assert(self@.subrange(i as int, n as int).subrange(
                    1,
                    self@.subrange(i as int, n as int).len() as int,
                ) =~= self@.subrange(i + 1, n as int));
            }
            i = i + 1;
        }
        proof {
            assert(self@.subrange(i as int, n as int).len() == 0);
        }
        None
    }
}

} // verus!
