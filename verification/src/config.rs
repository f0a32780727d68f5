//! Configuration as the coordinator consumes it: plain values, immutable for
//! the process lifetime.

use vstd::prelude::*;

use crate::buttons::Button;
use crate::model::{PartyId, UserId, UserMode, UserModeView};
use crate::text::str_eq;

verus! {

/// Connection parameters for the remote service.
pub struct ApiConfig {
    pub base_url: String,
    pub client_token: String,
    pub tls_verify: bool,
    pub timeout_in_seconds: u64,
}

/// The optional fixed user of single-user mode.
pub struct UserConfig {
    pub id: Option<UserId>,
}

/// Per-party mappings: which whereabouts each button reports and which
/// feedback sounds each whereabouts may play.
pub struct PartyConfig {
    pub party_id: PartyId,
    pub buttons_to_whereabouts: Vec<(Button, String)>,
    pub whereabouts_sounds: Vec<(String, Vec<String>)>,
}

/// Specification-level image of [`PartyConfig`].
pub struct PartyConfigView {
    pub party_id: Seq<char>,
    pub buttons_to_whereabouts: Seq<(Button, Seq<char>)>,
    pub whereabouts_sounds: Seq<(Seq<char>, Seq<Seq<char>>)>,
}

impl View for PartyConfig {
    type V = PartyConfigView;

    open spec fn view(&self) -> PartyConfigView {
        PartyConfigView {
            party_id: self.party_id@,
            buttons_to_whereabouts: Seq::new(
                self.buttons_to_whereabouts@.len(),
                |i: int|
                    (self.buttons_to_whereabouts@[i].0, self.buttons_to_whereabouts@[i].1@),
            ),
            whereabouts_sounds: Seq::new(
                self.whereabouts_sounds@.len(),
                |i: int|
                    (self.whereabouts_sounds@[i].0@, self.whereabouts_sounds@[i].1.deep_view()),
            ),
        }
    }
}

/// The whereabouts name the first matching entry assigns to a button, if
/// any.
pub open spec fn whereabouts_for_button(
    mapping: Seq<(Button, Seq<char>)>,
    button: Button,
) -> Option<Seq<char>>
    decreases mapping.len(),
{
    if mapping.len() == 0 {
        None
    } else if mapping[0].0 == button {
        Some(mapping[0].1)
    } else {
        whereabouts_for_button(mapping.subrange(1, mapping.len() as int), button)
    }
}

/// The candidate sound names the first matching entry assigns to a
/// whereabouts name, if any.
pub open spec fn sounds_for_whereabouts(
    mapping: Seq<(Seq<char>, Seq<Seq<char>>)>,
    name: Seq<char>,
) -> Option<Seq<Seq<char>>>
    decreases mapping.len(),
{
    if mapping.len() == 0 {
        None
    } else if mapping[0].0 == name {
        Some(mapping[0].1)
    } else {
        sounds_for_whereabouts(mapping.subrange(1, mapping.len() as int), name)
    }
}

impl PartyConfig {
    /// Looks a button up in the button-to-whereabouts mapping.
    pub fn find_whereabouts_for_button(&self, button: Button) -> (r: Option<&String>)
        ensures
            r.deep_view() == whereabouts_for_button(self@.buttons_to_whereabouts, button),
    {
        let n = self.buttons_to_whereabouts.len();
        proof {
            assert(self@.buttons_to_whereabouts.subrange(0, n as int)
                =~= self@.buttons_to_whereabouts);
        }
        let mut i: usize = 0;
        while i < n
            invariant
                n == self.buttons_to_whereabouts.len(),
                i <= n,
                whereabouts_for_button(self@.buttons_to_whereabouts, button)
                    == whereabouts_for_button(
                    self@.buttons_to_whereabouts.subrange(i as int, n as int),
                    button,
                ),
            decreases n - i,
        {
            let entry = &self.buttons_to_whereabouts[i];
            if entry.0 == button {
                return Some(&entry.1);
            }
            proof {
                assert(self@.buttons_to_whereabouts.subrange(i as int, n as int).subrange(
                    1,
                    self@.buttons_to_whereabouts.subrange(i as int, n as int).len() as int,
                ) =~= self@.buttons_to_whereabouts.subrange(i + 1, n as int));
            }
            i = i + 1;
        }
        None
    }

    /// Looks a whereabouts name up in the whereabouts-to-sounds mapping.
    pub fn find_sounds_for_whereabouts(&self, name: &str) -> (r: Option<&Vec<String>>)
        ensures
            r.deep_view() == sounds_for_whereabouts(self@.whereabouts_sounds, name@),
    {
        let n = self.whereabouts_sounds.len();
        proof {
            assert(self@.whereabouts_sounds.subrange(0, n as int) =~= self@.whereabouts_sounds);
        }
        let mut i: usize = 0;
        while i < n
            invariant
                n == self.whereabouts_sounds.len(),
                i <= n,
                sounds_for_whereabouts(self@.whereabouts_sounds, name@)
                    == sounds_for_whereabouts(
                    self@.whereabouts_sounds.subrange(i as int, n as int),
                    name@,
                ),
            decreases n - i,
        {
            let entry = &self.whereabouts_sounds[i];
            if str_eq(entry.0.as_str(), name) {
                return Some(&entry.1);
            }
            proof {
                assert(self@.whereabouts_sounds.subrange(i as int, n as int).subrange(
                    1,
                    self@.whereabouts_sounds.subrange(i as int, n as int).len() as int,
                ) =~= self@.whereabouts_sounds.subrange(i + 1, n as int));
            }
            i = i + 1;
        }
        None
    }
}

/// The whole startup configuration.
pub struct Config {
    pub reader_input_device: Option<String>,
    pub button_input_device: String,
    pub buttons_to_key_code_names: Vec<(Button, String)>,
    pub sounds_path: String,
    pub api: ApiConfig,
    pub party: PartyConfig,
    pub user: Option<UserConfig>,
}

/// The operating mode a configuration selects: single-user exactly when a
/// user id is configured.
pub open spec fn configured_mode(config: &Config) -> UserModeView {
    match config.user {
        Some(u) => match u.id {
            Some(id) => UserModeView::SingleUser(id@),
            None => UserModeView::MultiUser,
        },
        None => UserModeView::MultiUser,
    }
}

impl Config {
    /// The operating mode the configuration selects.
    pub fn get_user_mode(&self) -> (r: UserMode)
        ensures
            r@ == configured_mode(self),
    {
        match &self.user {
            Some(u) => match &u.id {
                Some(id) => UserMode::SingleUser(id.clone()),
                None => UserMode::MultiUser,
            },
            None => UserMode::MultiUser,
        }
    }
}

/// How the kiosk must start for a given configuration.
#[derive(Debug)]
pub struct StartupPlan {
    pub user_mode: UserMode,
    /// The tag-reader device to open: some device exactly in multi-user
    /// mode, where the reader is required.
    pub reader_device: Option<String>,
}

/// A configuration fault found while the startup is planned.
#[derive(Clone, Copy, Debug, PartialEq, Eq, Structural)]
pub enum StartupError {
    /// Multi-user mode asks for a tag reader, but none is configured.
    ReaderDeviceMissing,
}

/// Decides how to start: which mode to run in and whether the tag-reader
/// producer must be started.  Multi-user mode without a configured reader
/// device is a fatal configuration fault; single-user mode never opens the
/// reader.
pub fn plan_startup(config: &Config) -> (r: Result<StartupPlan, StartupError>)
    ensures
        r is Err <==> configured_mode(config) is MultiUser && config.reader_input_device
            is None,
        match r {
            Ok(plan) => {
                &&& plan.user_mode@ == configured_mode(config)
                &&& (configured_mode(config) is MultiUser ==> plan.reader_device.deep_view()
                    == config.reader_input_device.deep_view())
                &&& (configured_mode(config) is SingleUser ==> plan.reader_device is None)
            },
            Err(e) => e == StartupError::ReaderDeviceMissing,
        },
{
    let user_mode = config.get_user_mode();
    match user_mode {
        UserMode::MultiUser => match &config.reader_input_device {
            Some(device) => Ok(StartupPlan {
                user_mode: UserMode::MultiUser,
                reader_device: Some(device.clone()),
            }),
            None => Err(StartupError::ReaderDeviceMissing),
        },
        UserMode::SingleUser(id) => Ok(StartupPlan {
            user_mode: UserMode::SingleUser(id),
            reader_device: None,
        }),
    }
}

} // verus!
