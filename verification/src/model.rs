//! Core identifiers and the operating mode of the kiosk.

use vstd::prelude::*;

verus! {

/// Identifies the party whose mappings are active.
pub type PartyId = String;

/// Identifies a user at the remote service.
pub type UserId = String;

/// The operating mode, fixed at startup: one configured user for every
/// button press, or per-interaction identification via tag reads.
#[derive(Clone, Debug)]
pub enum UserMode {
    SingleUser(UserId),
    MultiUser,
}

/// Specification-level image of [`UserMode`].
pub enum UserModeView {
    SingleUser(Seq<char>),
    MultiUser,
}

impl View for UserMode {
    type V = UserModeView;

    open spec fn view(&self) -> UserModeView {
        match self {
            UserMode::SingleUser(id) => UserModeView::SingleUser(id@),
            UserMode::MultiUser => UserModeView::MultiUser,
        }
    }
}

} // verus!
