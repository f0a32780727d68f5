use verbleiber::api::{bearer_header_value, resolution_for_response, sign_off_url, sign_on_url,
    statuses_url, tag_details_url, StatusUpdate, TagDetails, TagUser};
use verbleiber::audio::sound_filename;
use verbleiber::buttons::Button;
use verbleiber::client::TagResolution;
use verbleiber::config::{plan_startup, ApiConfig, Config, PartyConfig, StartupError, UserConfig};
use verbleiber::model::UserMode;
use verbleiber::random::Random;
use verbleiber::registration::{next_registration_action, register_url, registration_status_url,
    ClientRegistrationStatus, RegistrationAction};
use verbleiber::text::str_eq;

fn base_config(user: Option<UserConfig>, reader: Option<String>) -> Config {
    Config {
        reader_input_device: reader,
        button_input_device: "/dev/input/event1".to_string(),
        buttons_to_key_code_names: vec![(Button::Button1, "trigger".to_string())],
        sounds_path: "/srv/sounds".to_string(),
        api: ApiConfig {
            base_url: "https://api.example".to_string(),
            client_token: "token".to_string(),
            tls_verify: true,
            timeout_in_seconds: 10,
        },
        party: PartyConfig {
            party_id: "party".to_string(),
            buttons_to_whereabouts: vec![(Button::Button1, "present".to_string())],
            whereabouts_sounds: vec![("present".to_string(), vec!["a.ogg".to_string()])],
        },
        user,
    }
}

#[test]
fn user_mode_follows_the_configured_user_id() {
    let single = base_config(Some(UserConfig { id: Some("u7".to_string()) }), None);
    match single.get_user_mode() {
        UserMode::SingleUser(id) => assert_eq!(id, "u7"),
        UserMode::MultiUser => panic!("a configured user id selects single-user mode"),
    }
    let no_id = base_config(Some(UserConfig { id: None }), None);
    assert!(matches!(no_id.get_user_mode(), UserMode::MultiUser));
    let no_user = base_config(None, None);
    assert!(matches!(no_user.get_user_mode(), UserMode::MultiUser));
}

#[test]
fn multi_user_mode_requires_a_reader_device() {
    let config = base_config(None, None);
    assert_eq!(plan_startup(&config).unwrap_err(), StartupError::ReaderDeviceMissing);
}

#[test]
fn startup_plan_opens_the_reader_only_in_multi_user_mode() {
    let multi = base_config(None, Some("/dev/input/event2".to_string()));
    let plan = plan_startup(&multi).unwrap();
    assert!(matches!(plan.user_mode, UserMode::MultiUser));
    assert_eq!(plan.reader_device, Some("/dev/input/event2".to_string()));

    let single = base_config(
        Some(UserConfig { id: Some("u7".to_string()) }),
        Some("/dev/input/event2".to_string()),
    );
    let plan = plan_startup(&single).unwrap();
    assert!(matches!(plan.user_mode, UserMode::SingleUser(_)));
    assert_eq!(plan.reader_device, None);
}

#[test]
fn party_config_lookups_find_the_configured_entries() {
    let config = base_config(None, None);
    assert_eq!(
        config.party.find_whereabouts_for_button(Button::Button1),
        Some(&"present".to_string())
    );
    assert_eq!(config.party.find_whereabouts_for_button(Button::Button2), None);
    assert_eq!(
        config.party.find_sounds_for_whereabouts("present"),
        Some(&vec!["a.ogg".to_string()])
    );
    assert_eq!(config.party.find_sounds_for_whereabouts("away"), None);
}

#[test]
fn string_equality_helper_compares_contents() {
    assert!(str_eq("present", "present"));
    assert!(!str_eq("present", "presen"));
    assert!(!str_eq("present", "presenT"));
    assert!(str_eq("", ""));
}

#[test]
fn request_urls_are_built_from_the_base_url() {
    assert_eq!(sign_on_url("https://api.example"), "https://api.example/client/sign_on");
    assert_eq!(sign_off_url("https://api.example"), "https://api.example/client/sign_off");
    assert_eq!(tag_details_url("https://api.example", "1234"), "https://api.example/tags/1234");
    assert_eq!(statuses_url("https://api.example"), "https://api.example/statuses");
    assert_eq!(register_url("https://api.example"), "https://api.example/client/register");
    assert_eq!(
        registration_status_url("https://api.example", "c1"),
        "https://api.example/client/registration_status/c1"
    );
}

#[test]
fn bearer_header_carries_the_token() {
    assert_eq!(bearer_header_value("SECRET-REDACTED"), "Bearer SECRET-REDACTED");
}

#[test]
fn sound_filenames_get_the_ogg_extension() {
    assert_eq!(sound_filename("ding"), "ding.ogg");
    assert_eq!(sound_filename(""), ".ogg");
}

#[test]
fn tag_details_read_into_a_resolution() {
    let details = TagDetails {
        identifier: "1234".to_string(),
        user: TagUser { id: "u1".to_string(), screen_name: Some("One".to_string()) },
        sound_name: Some("hello.u1".to_string()),
    };
    match resolution_for_response(Some(details)) {
        TagResolution::Known { user_id, sound_name } => {
            assert_eq!(user_id, "u1");
            assert_eq!(sound_name, Some("hello.u1".to_string()));
        },
        _ => panic!("a body identifies its user"),
    }
    assert!(matches!(resolution_for_response(None), TagResolution::UnknownTag));
}

#[test]
fn status_update_carries_the_submission() {
    let update = StatusUpdate {
        user_id: "u1".to_string(),
        party_id: "party".to_string(),
        whereabouts_name: "present".to_string(),
    };
    assert_eq!(update.user_id, "u1");
    assert_eq!(update.party_id, "party");
    assert_eq!(update.whereabouts_name, "present");
}

#[test]
fn registration_polls_exactly_while_pending() {
    assert_eq!(
        next_registration_action(ClientRegistrationStatus::Pending),
        RegistrationAction::Retry
    );
    assert_eq!(
        next_registration_action(ClientRegistrationStatus::Approved),
        RegistrationAction::Complete
    );
    assert_eq!(
        next_registration_action(ClientRegistrationStatus::Rejected),
        RegistrationAction::Abort
    );
}

#[test]
fn random_choice_returns_a_listed_element() {
    let mut random = Random::new();
    let one = vec!["only".to_string()];
    assert_eq!(random.choose_random_element(&one), "only");
    let two = vec!["x".to_string(), "y".to_string()];
    for _ in 0..32 {
        let picked = random.choose_random_element(&two);
        assert!(picked == "x" || picked == "y");
    }
}
