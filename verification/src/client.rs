//! The session coordinator: the state machine that turns decoded events into
//! calls on the identity/status service and audible feedback.
//!
//! The coordinator never performs network or audio work itself.  For each
//! consumed [`Event`] it hands its caller a [`Directive`] saying which remote
//! call to make, and the caller feeds the call's outcome back in; every
//! decision in between is made here and is verified against the
//! specification-level step functions [`session_step`] and
//! [`resolution_step`].

use vstd::prelude::*;
use vstd::string::StringExecFns;

use crate::buttons::Button;
use crate::config::{sounds_for_whereabouts, whereabouts_for_button, PartyConfig,
    PartyConfigView};
use crate::events::{Event, EventView};
use crate::model::{UserId, UserMode, UserModeView};
use crate::random::Random;

verus! {

/// Name of the sound played when a call to the remote service fails.
pub open spec fn network_failure_sound() -> Seq<char> {
    "oh-nein-netzwerkfehler"@
}

/// Name of the sound played when a tag is not known to the remote service.
pub open spec fn unknown_tag_sound() -> Seq<char> {
    "unknown_user_tag"@
}

/// The network-failure sound name as a string.
pub fn network_failure_sound_name() -> (r: String)
    ensures
        r@ == network_failure_sound(),
{
    String::from_str("oh-nein-netzwerkfehler")
}

/// The unknown-tag sound name as a string.
pub fn unknown_tag_sound_name() -> (r: String)
    ensures
        r@ == unknown_tag_sound(),
{
    String::from_str("unknown_user_tag")
}

/// What the coordinator asks its caller to do for the event just consumed.
#[derive(Clone, Debug)]
pub enum Directive {
    /// Nothing: the event is ignored.
    DoNothing,
    /// Resolve the tag at the remote service and feed the outcome to
    /// [`Client::handle_tag_read`].
    ResolveTag { tag: String },
    /// Submit the whereabouts update and feed the outcome to
    /// [`Client::handle_submission_outcome`].
    SubmitStatus { user_id: UserId, whereabouts_name: String },
    /// Sign off at the remote service, feed the outcome to
    /// [`Client::sign_off`], and stop consuming events.
    SignOff,
}

/// Specification-level image of [`Directive`].
pub enum DirectiveView {
    DoNothing,
    ResolveTag { tag: Seq<char> },
    SubmitStatus { user_id: Seq<char>, whereabouts_name: Seq<char> },
    SignOff,
}

impl View for Directive {
    type V = DirectiveView;

    open spec fn view(&self) -> DirectiveView {
        match self {
            Directive::DoNothing => DirectiveView::DoNothing,
            Directive::ResolveTag { tag } => DirectiveView::ResolveTag { tag: tag@ },
            Directive::SubmitStatus { user_id, whereabouts_name } => (
                DirectiveView::SubmitStatus {
                    user_id: user_id@,
                    whereabouts_name: whereabouts_name@,
                }
            ),
            Directive::SignOff => DirectiveView::SignOff,
        }
    }
}

/// Outcome of resolving a tag at the remote service.
#[derive(Clone, Debug)]
pub enum TagResolution {
    /// The tag belongs to a user; the response may name a personal feedback
    /// sound.
    Known { user_id: UserId, sound_name: Option<String> },
    /// The service answered and knows no such tag.
    UnknownTag,
    /// The call failed on the network or the protocol.
    NetworkFailure,
}

/// Specification-level image of [`TagResolution`].
pub enum TagResolutionView {
    Known { user_id: Seq<char>, sound_name: Option<Seq<char>> },
    UnknownTag,
    NetworkFailure,
}

impl View for TagResolution {
    type V = TagResolutionView;

    open spec fn view(&self) -> TagResolutionView {
        match self {
            TagResolution::Known { user_id, sound_name } => (
                TagResolutionView::Known {
                    user_id: user_id@,
                    sound_name: sound_name.deep_view(),
                }
            ),
            TagResolution::UnknownTag => TagResolutionView::UnknownTag,
            TagResolution::NetworkFailure => TagResolutionView::NetworkFailure,
        }
    }
}

/// Outcome of a call that either succeeds or fails on the network: sign-on,
/// sign-off, or a status submission.
#[derive(Clone, Copy, Debug, PartialEq, Eq, Structural)]
pub enum SubmissionOutcome {
    Accepted,
    NetworkFailure,
}

/// Audible feedback the coordinator asks for: at most one sound per step.
#[derive(Clone, Debug)]
pub enum Feedback {
    Silent,
    Play { name: String },
}

/// Specification-level image of [`Feedback`].
pub enum FeedbackView {
    Silent,
    Play { name: Seq<char> },
}

impl View for Feedback {
    type V = FeedbackView;

    open spec fn view(&self) -> FeedbackView {
        match self {
            Feedback::Silent => FeedbackView::Silent,
            Feedback::Play { name } => FeedbackView::Play { name: name@ },
        }
    }
}

/// Specification-level image of the coordinator state.
pub struct ClientView {
    pub mode: UserModeView,
    pub current_user: Option<Seq<char>>,
    pub shut_down: bool,
}

/// One step of the session state machine: from the coordinator state and a
/// consumed event to the new state and the directive handed to the caller.
///
/// After shutdown no event is processed.  A tag read asks for resolution in
/// multi-user mode and is ignored in single-user mode.  A button press asks
/// for a submission for the fixed user (single-user mode) or for the
/// currently identified user (multi-user mode, where the identification is
/// consumed by the press, mapped button or not); an unmapped button or a
/// missing identification asks for nothing.  A shutdown request asks for the
/// sign-off and makes the state terminal.
pub open spec fn session_step(s: ClientView, ev: EventView, pc: PartyConfigView) -> (
    ClientView,
    DirectiveView,
) {
    if s.shut_down {
        (s, DirectiveView::DoNothing)
    } else {
        match ev {
            EventView::TagRead { tag } => match s.mode {
                UserModeView::SingleUser(_) => (s, DirectiveView::DoNothing),
                UserModeView::MultiUser => (s, DirectiveView::ResolveTag { tag }),
            },
            EventView::ButtonPressed { button } => match s.mode {
                UserModeView::SingleUser(user_id) => (
                    match whereabouts_for_button(pc.buttons_to_whereabouts, button) {
                        Some(whereabouts_name) => (
                            s,
                            DirectiveView::SubmitStatus { user_id, whereabouts_name },
                        ),
                        None => (s, DirectiveView::DoNothing),
                    }
                ),
                UserModeView::MultiUser => match s.current_user {
                    Some(user_id) => (
                        match whereabouts_for_button(pc.buttons_to_whereabouts, button) {
                            Some(whereabouts_name) => (
                                (ClientView { current_user: None, ..s }),
                                DirectiveView::SubmitStatus { user_id, whereabouts_name },
                            ),
                            None => (
                                (ClientView { current_user: None, ..s }),
                                DirectiveView::DoNothing,
                            ),
                        }
                    ),
                    None => (s, DirectiveView::DoNothing),
                },
            },
            EventView::ShutdownRequested => (
                (ClientView { shut_down: true, ..s }),
                DirectiveView::SignOff,
            ),
        }
    }
}

/// How a tag-resolution outcome changes the coordinator state and what
/// feedback it asks for.
///
/// A known tag identifies its user and may carry a personal sound; an
/// unknown tag and a failed call both leave nobody identified and ask for
/// their fixed sound.
pub open spec fn resolution_step(s: ClientView, res: TagResolutionView) -> (
    ClientView,
    FeedbackView,
) {
    match res {
        TagResolutionView::Known { user_id, sound_name } => (
            (ClientView { current_user: Some(user_id), ..s }),
            match sound_name {
                Some(name) => FeedbackView::Play { name },
                None => FeedbackView::Silent,
            },
        ),
        TagResolutionView::UnknownTag => (
            (ClientView { current_user: None, ..s }),
            FeedbackView::Play { name: unknown_tag_sound() },
        ),
        TagResolutionView::NetworkFailure => (
            (ClientView { current_user: None, ..s }),
            FeedbackView::Play { name: network_failure_sound() },
        ),
    }
}

/// The session coordinator.  It owns the current identification and the
/// shutdown flag; the pseudo-random source only serves feedback-sound
/// selection and is invisible to the state view.
pub struct Client {
    user_mode: UserMode,
    current_user: Option<UserId>,
    shut_down: bool,
    random: Random,
}

impl View for Client {
    type V = ClientView;

    closed spec fn view(&self) -> ClientView {
        ClientView {
            mode: self.user_mode@,
            current_user: self.current_user.deep_view(),
            shut_down: self.shut_down,
        }
    }
}

impl Client {
    /// A fresh coordinator in the given mode: nobody identified, running.
    pub fn new(user_mode: UserMode) -> (r: Client)
        ensures
            r@ == (ClientView { mode: user_mode@, current_user: None, shut_down: false }),
    {
        Client { user_mode, current_user: None, shut_down: false, random: Random::new() }
    }

    /// Consumes one event; follows [`session_step`] exactly.
    pub fn handle_event(&mut self, event: Event, party_config: &PartyConfig) -> (r: Directive)
        ensures
            final(self)@ == session_step(old(self)@, event@, party_config@).0,
            r@ == session_step(old(self)@, event@, party_config@).1,
    {
        if self.shut_down {
            return Directive::DoNothing;
        }
        match event {
            Event::TagRead { tag } => match &self.user_mode {
                UserMode::SingleUser(_) => Directive::DoNothing,
                UserMode::MultiUser => Directive::ResolveTag { tag },
            },
            Event::ButtonPressed { button } => {
                let user_for_submission: Option<UserId> = match &self.user_mode {
                    UserMode::SingleUser(user_id) => Some(user_id.clone()),
                    UserMode::MultiUser => match &self.current_user {
                        Some(user_id) => {
                            let user_id = user_id.clone();
                            self.current_user = None;
                            Some(user_id)
                        },
                        None => None,
                    },
                };
                match user_for_submission {
                    Some(user_id) => match party_config.find_whereabouts_for_button(button) {
                        Some(whereabouts_name) => Directive::SubmitStatus {
                            user_id,
                            whereabouts_name: whereabouts_name.clone(),
                        },
                        None => Directive::DoNothing,
                    },
                    None => Directive::DoNothing,
                }
            },
            Event::ShutdownRequested => {
                self.shut_down = true;
                Directive::SignOff
            },
        }
    }

    /// Absorbs the outcome of the tag resolution a [`Directive::ResolveTag`]
    /// asked for; follows [`resolution_step`] exactly.
    pub fn handle_tag_read(&mut self, resolution: TagResolution) -> (r: Feedback)
        ensures
            final(self)@ == resolution_step(old(self)@, resolution@).0,
            r@ == resolution_step(old(self)@, resolution@).1,
    {
        match resolution {
            TagResolution::Known { user_id, sound_name } => {
                self.current_user = Some(user_id);
                match sound_name {
                    Some(name) => Feedback::Play { name },
                    None => Feedback::Silent,
                }
            },
            TagResolution::UnknownTag => {
                self.current_user = None;
                Feedback::Play { name: unknown_tag_sound_name() }
            },
            TagResolution::NetworkFailure => {
                self.current_user = None;
                Feedback::Play { name: network_failure_sound_name() }
            },
        }
    }

    /// Absorbs the outcome of the submission a [`Directive::SubmitStatus`]
    /// asked for and picks the feedback: a failure asks for exactly the
    /// network-failure sound; a success asks for some sound of the
    /// configured candidate set of the submitted whereabouts, or none where
    /// the set is missing or empty.  The state is unchanged either way.
    pub fn handle_submission_outcome(
        &mut self,
        outcome: SubmissionOutcome,
        whereabouts_name: &str,
        party_config: &PartyConfig,
    ) -> (r: Feedback)
        ensures
            final(self)@ == old(self)@,
            match outcome {
                SubmissionOutcome::Accepted => (
                    match sounds_for_whereabouts(
                        party_config@.whereabouts_sounds,
                        whereabouts_name@,
                    ) {
                        Some(candidates) => (
                            if candidates.len() == 0 {
                                r@ is Silent
                            } else {
                                r@ matches FeedbackView::Play { name } && candidates.contains(
                                    name,
                                )
                            }
                        ),
                        None => r@ is Silent,
                    }
                ),
                SubmissionOutcome::NetworkFailure => r@ == (FeedbackView::Play {
                    name: network_failure_sound(),
                }),
            },
    {
        match outcome {
            SubmissionOutcome::Accepted => {
                match party_config.find_sounds_for_whereabouts(whereabouts_name) {
                    Some(sound_names) => {
                        if sound_names.len() == 0 {
                            Feedback::Silent
                        } else {
                            let name = self.random.choose_random_element(sound_names);
                            proof {
                                let i = choose|i: int|
                                    0 <= i < sound_names@.len() && name@ == sound_names@[i]@;
                                assert(sound_names.deep_view()[i] == name@);
                                assert(sound_names.deep_view().contains(name@));
                            }
                            Feedback::Play { name }
                        }
                    },
                    None => Feedback::Silent,
                }
            },
            SubmissionOutcome::NetworkFailure => Feedback::Play {
                name: network_failure_sound_name(),
            },
        }
    }

    /// Feedback policy for the sign-on attempt made at startup: a failure is
    /// reported audibly with the network-failure sound and never escalated.
    pub fn sign_on(&self, outcome: SubmissionOutcome) -> (r: Feedback)
        ensures
            r@ == (match outcome {
                SubmissionOutcome::Accepted => FeedbackView::Silent,
                SubmissionOutcome::NetworkFailure => FeedbackView::Play {
                    name: network_failure_sound(),
                },
            }),
    {
        match outcome {
            SubmissionOutcome::Accepted => Feedback::Silent,
            SubmissionOutcome::NetworkFailure => Feedback::Play {
                name: network_failure_sound_name(),
            },
        }
    }

    /// Feedback policy for the sign-off attempt a [`Directive::SignOff`]
    /// asked for; the same as for sign-on.
    pub fn sign_off(&self, outcome: SubmissionOutcome) -> (r: Feedback)
        ensures
            r@ == (match outcome {
                SubmissionOutcome::Accepted => FeedbackView::Silent,
                SubmissionOutcome::NetworkFailure => FeedbackView::Play {
                    name: network_failure_sound(),
                },
            }),
    {
        match outcome {
            SubmissionOutcome::Accepted => Feedback::Silent,
            SubmissionOutcome::NetworkFailure => Feedback::Play {
                name: network_failure_sound_name(),
            },
        }
    }
}

/// In multi-user mode a button press with nobody identified is ignored: no
/// submission is asked for and the state does not change.
pub proof fn lemma_button_without_user_is_ignored(
    s: ClientView,
    button: Button,
    pc: PartyConfigView,
)
    requires
        s.mode is MultiUser,
        s.current_user is None,
    ensures
        session_step(s, EventView::ButtonPressed { button }, pc) == (
            s,
            DirectiveView::DoNothing,
        ),
{
}

/// In multi-user mode at most one button press is honored per tag
/// resolution: whatever a first press did, a second press without an
/// intervening tag read asks for no work at all.
pub proof fn lemma_one_press_per_tag(
    s: ClientView,
    first: Button,
    second: Button,
    pc: PartyConfigView,
)
    requires
        s.mode is MultiUser,
    ensures
        ({
            let after_first = session_step(s, EventView::ButtonPressed { button: first }, pc).0;
            session_step(after_first, EventView::ButtonPressed { button: second }, pc).1
                == DirectiveView::DoNothing
        }),
{
}

/// In single-user mode every submission asked for carries the fixed
/// configured user, presses never change the state, and tag reads are
/// ignored outright.
pub proof fn lemma_single_user_policy(
    s: ClientView,
    user_id: Seq<char>,
    button: Button,
    tag: Seq<char>,
    pc: PartyConfigView,
)
    requires
        s.mode == UserModeView::SingleUser(user_id),
        !s.shut_down,
    ensures
        session_step(s, EventView::ButtonPressed { button }, pc) == (
            s,
            match whereabouts_for_button(pc.buttons_to_whereabouts, button) {
                Some(whereabouts_name) => DirectiveView::SubmitStatus {
                    user_id,
                    whereabouts_name,
                },
                None => DirectiveView::DoNothing,
            },
        ),
        session_step(s, EventView::TagRead { tag }, pc) == (s, DirectiveView::DoNothing),
{
}

/// The first shutdown request asks for the sign-off and makes the state
/// terminal.
pub proof fn lemma_shutdown_honored_once(s: ClientView, pc: PartyConfigView)
    requires
        !s.shut_down,
    ensures
        session_step(s, EventView::ShutdownRequested, pc) == (
            (ClientView { shut_down: true, ..s }),
            DirectiveView::SignOff,
        ),
{
}

/// After shutdown no event is processed: every later event, a second
/// shutdown request included, asks for nothing and changes nothing.
pub proof fn lemma_shutdown_is_terminal(s: ClientView, ev: EventView, pc: PartyConfigView)
    requires
        s.shut_down,
    ensures
        session_step(s, ev, pc) == (s, DirectiveView::DoNothing),
{
}

/// An unknown tag identifies nobody: after its resolution a button press
/// asks for no submission.
pub proof fn lemma_unknown_tag_then_button(s: ClientView, button: Button, pc: PartyConfigView)
    requires
        s.mode is MultiUser,
    ensures
        ({
            let after = resolution_step(s, TagResolutionView::UnknownTag).0;
            session_step(after, EventView::ButtonPressed { button }, pc).1
                == DirectiveView::DoNothing
        }),
{
}

} // verus!
