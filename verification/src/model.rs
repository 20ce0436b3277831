//! The mathematical model of a wrapper, and what it says of every event.

use crate::input::Input;
use iced::{Point, Size};
use vstd::prelude::*;

verus! {

/// Whether the host should treat an input event as consumed.
#[derive(Clone, Copy, Debug, PartialEq, Eq, Structural)]
pub enum Status {
    /// The event was not handled; siblings and ancestors may still react.
    Ignored,
    /// The event was handled; the host stops propagating it.
    Captured,
}

/// The room a widget asks of its parent along one axis.
#[derive(Clone, Copy, Debug, PartialEq, Eq, Structural)]
pub enum Extent {
    /// As much as the parent has left.
    Fill,
    /// As little as the content needs.
    Shrink,
}

/// What a wrapper is, as far as events are concerned.
///
/// A registered callback is modelled by the relation between its arguments
/// and the messages it may return; a slot without a callback is `None`.
#[verifier::reject_recursive_types(Message)]
pub ghost struct WrapperView<Message> {
    /// Whether every event is reported as ignored, forwarded or not.
    pub always_ignore: bool,
    /// The keyboard callback: event and message.
    pub keyboard: Option<spec_fn(iced::keyboard::Event, Message) -> bool>,
    /// The mouse callback: event, position relative to the wrapper, and message.
    pub mouse: Option<spec_fn(iced::mouse::Event, Point, Message) -> bool>,
    /// The callback for the recorded size: size and message.
    pub bounds: Option<spec_fn(Size, Message) -> bool>,
}

impl<Message> WrapperView<Message> {
    /// A wrapper without callbacks that captures what it forwards.
    pub open spec fn bare() -> Self {
        WrapperView { always_ignore: false, keyboard: None, mouse: None, bounds: None }
    }

    /// The status reported for an event that a registered callback stands for.
    pub open spec fn forwarded_status(self) -> Status {
        if self.always_ignore {
            Status::Ignored
        } else {
            Status::Captured
        }
    }

    /// The status reported for `input`.
    ///
    /// It depends on the kind of the event and on whether a callback is
    /// registered for that kind, not on whether the callback was invoked: a
    /// mouse event away from the wrapper is reported like one over it.
    pub open spec fn status(self, input: Input) -> Status {
        match input {
            Input::Keyboard(_) => if self.keyboard is Some {
                self.forwarded_status()
            } else {
                Status::Ignored
            },
            Input::Mouse(_) => if self.mouse is Some {
                self.forwarded_status()
            } else {
                Status::Ignored
            },
            Input::Window => Status::Ignored,
            Input::Touch => Status::Ignored,
        }
    }

    /// Whether an event announces the recorded size: a callback for it is
    /// registered and a size has been recorded.
    pub open spec fn announces(self, recorded: Option<Size>) -> bool {
        self.bounds is Some && recorded is Some
    }

    /// Whether `input` is handed to a callback: a keyboard event to a
    /// registered keyboard callback, a mouse event to a registered mouse
    /// callback while the cursor is over the wrapper.
    pub open spec fn forwards(self, input: Input, position: Option<Point>) -> bool {
        match input {
            Input::Keyboard(_) => self.keyboard is Some,
            Input::Mouse(_) => self.mouse is Some && position is Some,
            Input::Window => false,
            Input::Touch => false,
        }
    }

    /// Whether `message` may come from the callback that `input` is handed to.
    pub open spec fn forwarded(self, input: Input, position: Option<Point>, message: Message) -> bool {
        match input {
            Input::Keyboard(event) => self.keyboard matches Some(callback) && callback(
                event,
                message,
            ),
            Input::Mouse(event) => self.mouse matches Some(callback) && position matches Some(
                point,
            ) && callback(event, point, message),
            Input::Window => false,
            Input::Touch => false,
        }
    }

    /// The number of messages that one event publishes.
    pub open spec fn count(self, recorded: Option<Size>, input: Input, position: Option<Point>) -> nat {
        (if self.announces(recorded) { 1nat } else { 0nat }) + (if self.forwards(input, position) {
            1nat
        } else {
            0nat
        })
    }

    /// Whether `published` is what one event may publish, in order: first the
    /// message for the recorded size, if the event announces it, then the
    /// message for the event itself, if it is forwarded.
    pub open spec fn publishes(
        self,
        recorded: Option<Size>,
        input: Input,
        position: Option<Point>,
        published: Seq<Message>,
    ) -> bool {
        &&& published.len() == self.count(recorded, input, position)
        &&& self.announces(recorded) ==> (self.bounds->0)(recorded->0, published.first())
        &&& self.forwards(input, position) ==> self.forwarded(input, position, published.last())
    }
}

} // verus!
