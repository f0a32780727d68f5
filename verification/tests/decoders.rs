use verbleiber::buttons::{map_key_codes_to_buttons, Button, ButtonHandler, ButtonMappingError};
use verbleiber::buttons::find_key_code_by_name;
use verbleiber::keys::InputEvent;
use verbleiber::tagreader::TagReader;
use verbleiber::userinput::{find_button_for_key_code, get_char, handle_button_press,
    is_key_released, StringReader};

const EV_KEY: u16 = 1;
const EV_SYN: u16 = 0;
const KEY_ENTER: u16 = 28;

fn release(code: u16) -> InputEvent {
    InputEvent { event_type: EV_KEY, code, value: 0 }
}

fn press(code: u16) -> InputEvent {
    InputEvent { event_type: EV_KEY, code, value: 1 }
}

#[test]
fn tag_reader_accumulates_digits_until_terminator() {
    let mut reader = TagReader::new();
    // Digits arrive as press/release pairs; only releases count.
    assert_eq!(reader.handle_event(press(2)), None); // "1" pressed
    assert_eq!(reader.handle_event(release(2)), None); // "1" released
    assert_eq!(reader.handle_event(release(3)), None); // "2"
    assert_eq!(reader.handle_event(release(4)), None); // "3"
    assert_eq!(reader.handle_event(release(5)), None); // "4"
    assert_eq!(reader.handle_event(press(KEY_ENTER)), None);
    assert_eq!(reader.handle_event(release(KEY_ENTER)), Some("1234".to_string()));
    // The buffer is empty immediately after the emission.
    assert_eq!(reader.handle_event(release(KEY_ENTER)), Some(String::new()));
}

#[test]
fn tag_reader_ignores_unmapped_keys() {
    let mut reader = TagReader::new();
    assert_eq!(reader.handle_event(release(30)), None); // some letter key
    assert_eq!(reader.handle_event(release(11)), None); // "0"
    assert_eq!(reader.handle_event(InputEvent { event_type: EV_SYN, code: 0, value: 0 }), None);
    assert_eq!(reader.handle_event(release(KEY_ENTER)), Some("0".to_string()));
}

#[test]
fn string_reader_matches_tag_reader() {
    let mut reader = StringReader::new();
    assert_eq!(reader.handle_event(release(11)), None); // "0"
    assert_eq!(reader.handle_event(release(10)), None); // "9"
    assert_eq!(reader.handle_event(press(KEY_ENTER)), None);
    assert_eq!(reader.handle_event(release(KEY_ENTER)), Some("09".to_string()));
    assert_eq!(reader.handle_event(release(KEY_ENTER)), Some(String::new()));
}

#[test]
fn press_events_emit_nothing_and_change_nothing() {
    let mut reader = TagReader::new();
    // Key presses and repeats of digit keys must not reach the buffer.
    assert_eq!(reader.handle_event(press(2)), None);
    assert_eq!(reader.handle_event(InputEvent { event_type: EV_KEY, code: 3, value: 2 }), None);
    assert_eq!(reader.handle_event(press(KEY_ENTER)), None);
    assert_eq!(reader.handle_event(release(KEY_ENTER)), Some(String::new()));

    let handler = ButtonHandler::new(vec![(0x120, Button::Button1)]);
    assert_eq!(handler.handle_button_press(press(0x120)), None);
    assert_eq!(handle_button_press(press(0x120)), None);
}

#[test]
fn unmapped_button_code_decodes_to_none() {
    let handler = ButtonHandler::new(vec![(0x120, Button::Button1), (0x121, Button::Button2)]);
    assert_eq!(handler.handle_button_press(release(0x122)), None);
    assert_eq!(handler.handle_button_press(release(0x120)), Some(Button::Button1));
    assert_eq!(handler.handle_button_press(release(0x121)), Some(Button::Button2));
}

#[test]
fn default_button_mapping_covers_the_four_buttons() {
    assert_eq!(handle_button_press(release(0x120)), Some(Button::Button1));
    assert_eq!(handle_button_press(release(0x121)), Some(Button::Button2));
    assert_eq!(handle_button_press(release(0x122)), Some(Button::Button3));
    assert_eq!(handle_button_press(release(0x123)), Some(Button::Button4));
    assert_eq!(handle_button_press(release(0x124)), None);
    assert_eq!(find_button_for_key_code(0x123), Some(Button::Button4));
    assert_eq!(find_button_for_key_code(28), None);
}

#[test]
fn key_release_transitions_are_recognized() {
    assert!(is_key_released(release(2)));
    assert!(!is_key_released(press(2)));
    assert!(!is_key_released(InputEvent { event_type: EV_SYN, code: 2, value: 0 }));
}

#[test]
fn digit_keys_map_to_their_characters() {
    assert_eq!(get_char(2), Some('1'));
    assert_eq!(get_char(10), Some('9'));
    assert_eq!(get_char(11), Some('0'));
    assert_eq!(get_char(KEY_ENTER), None);
    assert_eq!(get_char(0x120), None);
    let reader = TagReader::new();
    assert_eq!(reader.get_char(5), Some('4'));
    assert_eq!(reader.get_char(1), None);
}

#[test]
fn key_code_names_resolve_to_codes() {
    assert_eq!(find_key_code_by_name("trigger"), Some(0x120));
    assert_eq!(find_key_code_by_name("thumb"), Some(0x121));
    assert_eq!(find_key_code_by_name("a"), Some(0x130));
    assert_eq!(find_key_code_by_name("south"), Some(0x130));
    assert_eq!(find_key_code_by_name("dpad_right"), Some(0x223));
    assert_eq!(find_key_code_by_name("trigger_happy8"), Some(0x2c7));
    assert_eq!(find_key_code_by_name("no_such_key"), None);
    assert_eq!(find_key_code_by_name(""), None);
}

#[test]
fn button_mapping_is_built_from_known_names() {
    let pairs = vec![
        (Button::Button1, "trigger".to_string()),
        (Button::Button2, "thumb".to_string()),
    ];
    let mapping = map_key_codes_to_buttons(&pairs).unwrap();
    assert_eq!(mapping, vec![(0x120, Button::Button1), (0x121, Button::Button2)]);
}

#[test]
fn unknown_key_code_name_is_a_fatal_configuration_fault() {
    let pairs = vec![
        (Button::Button1, "trigger".to_string()),
        (Button::Button2, "warp_drive".to_string()),
    ];
    match map_key_codes_to_buttons(&pairs) {
        Err(ButtonMappingError::UnknownKeyCodeName { name }) => {
            assert_eq!(name, "warp_drive");
        },
        Ok(_) => panic!("an unknown name must be rejected"),
    }
}
