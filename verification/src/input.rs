//! The kinds of input event the wrapper tells apart.

use iced::Event;
use vstd::prelude::*;

verus! {

/// An input event, sorted by the kind of device it comes from.
///
/// Keyboard and mouse events keep their payload, since that is what the
/// callbacks receive. Window and touch events are never forwarded, so only
/// their kind is kept.
pub enum Input {
    Keyboard(iced::keyboard::Event),
    Mouse(iced::mouse::Event),
    Window,
    Touch,
}

/// The [`Input`] that an `iced::Event` stands for: the variant of the same
/// name, with the same payload where one is kept.
pub uninterp spec fn input_of(event: Event) -> Input;

/// Tells the four variants of `iced::Event` apart. The contract gives the
/// result its name.
#[verifier::external_body]
pub(crate) fn classify(event: Event) -> (input: Input)
    ensures
        input == input_of(event),
{
    match event {
        Event::Keyboard(event) => Input::Keyboard(event),
        Event::Mouse(event) => Input::Mouse(event),
        Event::Window(_) => Input::Window,
        Event::Touch(_) => Input::Touch,
    }
}

} // verus!
