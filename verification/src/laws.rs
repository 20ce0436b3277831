//! What holds of every wrapper, stated over its model.
//!
//! Each law speaks of one event: `view` is the wrapper, `recorded` the size
//! that the last layout left, `input` the event, `position` the cursor's
//! position relative to the wrapper, and `published` any sequence of messages
//! that the event may publish.

use crate::input::Input;
use crate::model::{Status, WrapperView};
use iced::{Point, Size};
use vstd::prelude::*;

verus! {

/// A wrapper without callbacks ignores every event and publishes nothing.
pub proof fn law_bare_wrapper_is_silent<Message>(
    view: WrapperView<Message>,
    recorded: Option<Size>,
    input: Input,
    position: Option<Point>,
    published: Seq<Message>,
)
    requires
        view.keyboard is None,
        view.mouse is None,
        view.bounds is None,
        view.publishes(recorded, input, position, published),
    ensures
        published.len() == 0,
        view.status(input) == Status::Ignored,
{
}

/// With a keyboard callback registered, a keyboard event publishes exactly
/// one message, a result of the callback for that event, and is captured.
///
/// This is said of events that do not announce the recorded size: one that
/// does publishes that message first.
pub proof fn law_keyboard_event_is_captured<Message>(
    view: WrapperView<Message>,
    recorded: Option<Size>,
    event: iced::keyboard::Event,
    position: Option<Point>,
    published: Seq<Message>,
)
    requires
        view.keyboard is Some,
        !view.always_ignore,
        !view.announces(recorded),
        view.publishes(recorded, Input::Keyboard(event), position, published),
    ensures
        published.len() == 1,
        (view.keyboard->0)(event, published[0]),
        view.status(Input::Keyboard(event)) == Status::Captured,
{
}

/// With a keyboard callback registered and every event reported as ignored,
/// a keyboard event still publishes exactly one message, a result of the
/// callback for that event, but is ignored.
///
/// This is said of events that do not announce the recorded size: one that
/// does publishes that message first.
pub proof fn law_keyboard_event_is_forwarded_when_ignoring<Message>(
    view: WrapperView<Message>,
    recorded: Option<Size>,
    event: iced::keyboard::Event,
    position: Option<Point>,
    published: Seq<Message>,
)
    requires
        view.keyboard is Some,
        view.always_ignore,
        !view.announces(recorded),
        view.publishes(recorded, Input::Keyboard(event), position, published),
    ensures
        published.len() == 1,
        (view.keyboard->0)(event, published[0]),
        view.status(Input::Keyboard(event)) == Status::Ignored,
{
}

/// With a mouse callback registered, a mouse event while the cursor is over
/// the wrapper publishes exactly one message, a result of the callback for
/// that event and the cursor's relative position; while the cursor is
/// elsewhere it publishes nothing. The status is the same either way.
///
/// This is said of events that do not announce the recorded size: one that
/// does publishes that message first.
pub proof fn law_mouse_event_is_forwarded_over_the_wrapper<Message>(
    view: WrapperView<Message>,
    recorded: Option<Size>,
    event: iced::mouse::Event,
    position: Option<Point>,
    published: Seq<Message>,
)
    requires
        view.mouse is Some,
        !view.announces(recorded),
        view.publishes(recorded, Input::Mouse(event), position, published),
    ensures
        position matches Some(point) ==> published.len() == 1 && (view.mouse->0)(
            event,
            point,
            published[0],
        ),
        position is None ==> published.len() == 0,
        view.status(Input::Mouse(event)) == view.forwarded_status(),
{
}

/// Window and touch events are ignored and never forwarded, whatever
/// callbacks are registered.
///
/// This is said of events that do not announce the recorded size: one that
/// does publishes that message, and no other.
pub proof fn law_window_and_touch_events_are_ignored<Message>(
    view: WrapperView<Message>,
    recorded: Option<Size>,
    input: Input,
    position: Option<Point>,
    published: Seq<Message>,
)
    requires
        input is Window || input is Touch,
        !view.announces(recorded),
        view.publishes(recorded, input, position, published),
    ensures
        published.len() == 0,
        view.status(input) == Status::Ignored,
{
}

/// Once a size is recorded, every event of a wrapper with a callback for it
/// publishes a result of that callback for the recorded size first, and
/// after it at most the one message for the event itself.
pub proof fn law_recorded_size_is_announced_first<Message>(
    view: WrapperView<Message>,
    size: Size,
    input: Input,
    position: Option<Point>,
    published: Seq<Message>,
)
    requires
        view.bounds is Some,
        view.publishes(Some(size), input, position, published),
    ensures
        1 <= published.len() <= 2,
        (view.bounds->0)(size, published[0]),
        published.len() == 2 <==> view.forwards(input, position),
        published.len() == 2 ==> view.forwarded(input, position, published[1]),
{
}

} // verus!
