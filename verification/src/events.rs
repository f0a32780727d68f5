//! The events that flow from the input producers to the coordinator.

use vstd::prelude::*;

use crate::buttons::Button;

verus! {

/// One event on the shared channel: a decoded tag, a decoded button press,
/// or the request to shut the session down.
#[derive(Clone, Debug)]
pub enum Event {
    TagRead { tag: String },
    ButtonPressed { button: Button },
    ShutdownRequested,
}

/// Specification-level image of [`Event`].
pub enum EventView {
    TagRead { tag: Seq<char> },
    ButtonPressed { button: Button },
    ShutdownRequested,
}

impl View for Event {
    type V = EventView;

    open spec fn view(&self) -> EventView {
        match self {
            Event::TagRead { tag } => EventView::TagRead { tag: tag@ },
            Event::ButtonPressed { button } => EventView::ButtonPressed { button: *button },
            Event::ShutdownRequested => EventView::ShutdownRequested,
        }
    }
}

} // verus!
