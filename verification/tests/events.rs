use iced::advanced::layout::{Layout, Node};
use iced::keyboard::{self, Modifiers};
use iced::mouse::{self, Cursor};
use iced::widget::Space;
use iced::{touch, window, Event, Point, Size, Vector};
use iced_event_wrapper::{wrapper, Input, Status, Wrapper, WrapperState};

#[derive(Debug, Clone, PartialEq)]
enum Message {
    Key(keyboard::Event),
    Mouse(mouse::Event, Point),
    Bounds(Size),
    Other(u32),
}

fn key() -> keyboard::Event {
    keyboard::Event::ModifiersChanged(Modifiers::SHIFT)
}

fn click() -> mouse::Event {
    mouse::Event::ButtonPressed(mouse::Button::Left)
}

fn focus() -> Event {
    Event::Window(window::Event::Focused)
}

fn touch() -> Event {
    Event::Touch(touch::Event::FingerPressed {
        id: touch::Finger(1),
        position: Point::new(50.0, 50.0),
    })
}

fn every_event() -> Vec<Event> {
    vec![Event::Keyboard(key()), Event::Mouse(click()), focus(), touch()]
}

/// A node of 200 by 100 with one child of the same size.
fn node() -> Node {
    let size = Size::new(200.0, 100.0);
    Node::with_children(size, vec![Node::new(size)])
}

/// A state in which the size 200 by 100 is recorded.
fn laid_out() -> WrapperState {
    let mut state = WrapperState::new();
    state.record(Size::new(200.0, 100.0));
    state
}

fn over() -> Cursor {
    Cursor::Available(Point::new(15.0, 25.0))
}

fn all_callbacks<'a>() -> Wrapper<'a, Message> {
    wrapper(Space::new(200, 100))
        .on_keyboard_event(Message::Key)
        .on_mouse_event(Message::Mouse)
        .on_bounds_change(Message::Bounds)
}

#[test]
fn no_callbacks_every_event_is_ignored_and_silent() {
    let wrapper: Wrapper<Message> = Wrapper::new(Space::new(200, 100));
    let node = node();
    for state in [WrapperState::new(), laid_out()] {
        for cursor in [over(), Cursor::Unavailable] {
            for event in every_event() {
                let mut messages = Vec::new();
                let status =
                    wrapper.on_event(&state, event, Layout::new(&node), cursor, &mut messages);
                assert_eq!(status, Status::Ignored);
                assert!(messages.is_empty());
            }
        }
    }
}

#[test]
fn no_callbacks_and_always_ignoring_is_ignored_and_silent() {
    let wrapper: Wrapper<Message> = Wrapper::new(Space::new(200, 100)).always_ignore_events();
    let node = node();
    for event in every_event() {
        let mut messages = Vec::new();
        let status =
            wrapper.on_event(&laid_out(), event, Layout::new(&node), over(), &mut messages);
        assert_eq!(status, Status::Ignored);
        assert!(messages.is_empty());
    }
}

#[test]
fn keyboard_event_is_forwarded_and_captured() {
    let wrapper = wrapper(Space::new(200, 100)).on_keyboard_event(Message::Key);
    let node = node();
    let mut messages = Vec::new();
    let status = wrapper.on_event(
        &WrapperState::new(),
        Event::Keyboard(key()),
        Layout::new(&node),
        Cursor::Unavailable,
        &mut messages,
    );
    assert_eq!(status, Status::Captured);
    assert_eq!(messages, vec![Message::Key(key())]);
}

#[test]
fn keyboard_event_is_forwarded_but_ignored_when_always_ignoring() {
    let wrapper = wrapper(Space::new(200, 100))
        .on_keyboard_event(Message::Key)
        .always_ignore_events();
    let node = node();
    let mut messages = Vec::new();
    let status = wrapper.on_event(
        &WrapperState::new(),
        Event::Keyboard(key()),
        Layout::new(&node),
        over(),
        &mut messages,
    );
    assert_eq!(status, Status::Ignored);
    assert_eq!(messages, vec![Message::Key(key())]);
}

#[test]
fn keyboard_event_keeps_its_payload() {
    let wrapper = wrapper(Space::new(200, 100)).on_keyboard_event(Message::Key);
    let node = node();
    let released = keyboard::Event::KeyReleased {
        key: keyboard::Key::Named(keyboard::key::Named::Enter),
        location: keyboard::Location::Standard,
        modifiers: Modifiers::CTRL,
    };
    let mut messages = Vec::new();
    wrapper.on_event(
        &WrapperState::new(),
        Event::Keyboard(released.clone()),
        Layout::new(&node),
        over(),
        &mut messages,
    );
    assert_eq!(messages, vec![Message::Key(released)]);
}

#[test]
fn keyboard_event_without_keyboard_callback_is_ignored() {
    let wrapper = wrapper(Space::new(200, 100)).on_mouse_event(Message::Mouse);
    let node = node();
    let mut messages = Vec::new();
    let status = wrapper.on_event(
        &WrapperState::new(),
        Event::Keyboard(key()),
        Layout::new(&node),
        over(),
        &mut messages,
    );
    assert_eq!(status, Status::Ignored);
    assert!(messages.is_empty());
}

#[test]
fn mouse_event_over_the_wrapper_gets_the_local_position() {
    let wrapper = wrapper(Space::new(200, 100)).on_mouse_event(Message::Mouse);
    let node = node();
    let layout = Layout::with_offset(Vector::new(10.0, 20.0), &node);
    let mut messages = Vec::new();
    let status = wrapper.on_event(
        &WrapperState::new(),
        Event::Mouse(click()),
        layout,
        Cursor::Available(Point::new(15.0, 25.0)),
        &mut messages,
    );
    assert_eq!(status, Status::Captured);
    assert_eq!(messages, vec![Message::Mouse(click(), Point::new(5.0, 5.0))]);
}

#[test]
fn mouse_event_at_the_origin_of_the_wrapper_is_inside() {
    let wrapper = wrapper(Space::new(200, 100)).on_mouse_event(Message::Mouse);
    let node = node();
    let layout = Layout::with_offset(Vector::new(10.0, 20.0), &node);
    let mut messages = Vec::new();
    wrapper.on_event(
        &WrapperState::new(),
        Event::Mouse(click()),
        layout,
        Cursor::Available(Point::new(10.0, 20.0)),
        &mut messages,
    );
    assert_eq!(messages, vec![Message::Mouse(click(), Point::new(0.0, 0.0))]);
}

#[test]
fn mouse_event_at_the_far_edge_of_the_wrapper_is_outside() {
    let wrapper = wrapper(Space::new(200, 100)).on_mouse_event(Message::Mouse);
    let node = node();
    let layout = Layout::with_offset(Vector::new(10.0, 20.0), &node);
    let mut messages = Vec::new();
    let status = wrapper.on_event(
        &WrapperState::new(),
        Event::Mouse(click()),
        layout,
        Cursor::Available(Point::new(210.0, 25.0)),
        &mut messages,
    );
    assert_eq!(status, Status::Captured);
    assert!(messages.is_empty());
}

#[test]
fn mouse_event_away_from_the_wrapper_is_not_forwarded_but_captured() {
    let wrapper = wrapper(Space::new(200, 100)).on_mouse_event(Message::Mouse);
    let node = node();
    let layout = Layout::with_offset(Vector::new(10.0, 20.0), &node);
    let mut messages = Vec::new();
    let status = wrapper.on_event(
        &WrapperState::new(),
        Event::Mouse(click()),
        layout,
        Cursor::Available(Point::new(5.0, 5.0)),
        &mut messages,
    );
    assert_eq!(status, Status::Captured);
    assert!(messages.is_empty());
}

#[test]
fn mouse_event_without_a_cursor_is_not_forwarded_but_captured() {
    let wrapper = wrapper(Space::new(200, 100)).on_mouse_event(Message::Mouse);
    let node = node();
    let mut messages = Vec::new();
    let status = wrapper.on_event(
        &WrapperState::new(),
        Event::Mouse(mouse::Event::CursorLeft),
        Layout::new(&node),
        Cursor::Unavailable,
        &mut messages,
    );
    assert_eq!(status, Status::Captured);
    assert!(messages.is_empty());
}

#[test]
fn mouse_event_is_ignored_when_always_ignoring() {
    let wrapper = wrapper(Space::new(200, 100))
        .on_mouse_event(Message::Mouse)
        .always_ignore_events();
    let node = node();
    let mut messages = Vec::new();
    let status = wrapper.on_event(
        &WrapperState::new(),
        Event::Mouse(click()),
        Layout::new(&node),
        over(),
        &mut messages,
    );
    assert_eq!(status, Status::Ignored);
    assert_eq!(messages, vec![Message::Mouse(click(), Point::new(15.0, 25.0))]);

    let mut messages = Vec::new();
    let status = wrapper.on_event(
        &WrapperState::new(),
        Event::Mouse(click()),
        Layout::new(&node),
        Cursor::Available(Point::new(500.0, 500.0)),
        &mut messages,
    );
    assert_eq!(status, Status::Ignored);
    assert!(messages.is_empty());
}

#[test]
fn mouse_event_without_mouse_callback_is_ignored() {
    let wrapper = wrapper(Space::new(200, 100)).on_keyboard_event(Message::Key);
    let node = node();
    let mut messages = Vec::new();
    let status = wrapper.on_event(
        &WrapperState::new(),
        Event::Mouse(click()),
        Layout::new(&node),
        over(),
        &mut messages,
    );
    assert_eq!(status, Status::Ignored);
    assert!(messages.is_empty());
}

#[test]
fn window_and_touch_events_are_never_forwarded() {
    let node = node();
    for wrapper in [all_callbacks(), all_callbacks().always_ignore_events()] {
        for event in [focus(), touch()] {
            let mut messages = Vec::new();
            let status = wrapper.on_event(
                &WrapperState::new(),
                event,
                Layout::new(&node),
                over(),
                &mut messages,
            );
            assert_eq!(status, Status::Ignored);
            assert!(messages.is_empty());
        }
    }
}

#[test]
fn recorded_size_is_announced_on_every_event() {
    let wrapper = wrapper(Space::new(200, 100)).on_bounds_change(Message::Bounds);
    let node = node();
    for event in every_event() {
        let mut messages = Vec::new();
        let status = wrapper.on_event(&laid_out(), event, Layout::new(&node), over(), &mut messages);
        assert_eq!(status, Status::Ignored);
        assert_eq!(messages, vec![Message::Bounds(Size::new(200.0, 100.0))]);
    }
}

#[test]
fn recorded_size_is_announced_before_the_event() {
    let wrapper = all_callbacks();
    let node = node();
    let size = Message::Bounds(Size::new(200.0, 100.0));

    let mut messages = Vec::new();
    let status = wrapper.on_event(
        &laid_out(),
        Event::Keyboard(key()),
        Layout::new(&node),
        over(),
        &mut messages,
    );
    assert_eq!(status, Status::Captured);
    assert_eq!(messages, vec![size.clone(), Message::Key(key())]);

    let mut messages = Vec::new();
    let status = wrapper.on_event(
        &laid_out(),
        Event::Mouse(click()),
        Layout::new(&node),
        over(),
        &mut messages,
    );
    assert_eq!(status, Status::Captured);
    assert_eq!(
        messages,
        vec![size.clone(), Message::Mouse(click(), Point::new(15.0, 25.0))]
    );

    let mut messages = Vec::new();
    let status = wrapper.on_event(&laid_out(), focus(), Layout::new(&node), over(), &mut messages);
    assert_eq!(status, Status::Ignored);
    assert_eq!(messages, vec![size]);
}

#[test]
fn nothing_is_announced_before_the_first_layout() {
    let wrapper = wrapper(Space::new(200, 100)).on_bounds_change(Message::Bounds);
    let node = node();
    for event in every_event() {
        let mut messages = Vec::new();
        let status = wrapper.on_event(
            &WrapperState::new(),
            event,
            Layout::new(&node),
            over(),
            &mut messages,
        );
        assert_eq!(status, Status::Ignored);
        assert!(messages.is_empty());
    }
}

#[test]
fn published_messages_follow_those_already_there() {
    let wrapper = all_callbacks();
    let node = node();
    let mut messages = vec![Message::Other(1), Message::Other(2)];
    wrapper.on_event(
        &laid_out(),
        Event::Keyboard(key()),
        Layout::new(&node),
        over(),
        &mut messages,
    );
    assert_eq!(
        messages,
        vec![
            Message::Other(1),
            Message::Other(2),
            Message::Bounds(Size::new(200.0, 100.0)),
            Message::Key(key()),
        ]
    );
}

#[test]
fn sorted_input_is_handled_like_the_event() {
    let wrapper = all_callbacks();
    let state = laid_out();
    let size = Message::Bounds(Size::new(200.0, 100.0));

    let mut messages = Vec::new();
    let status = wrapper.on_input(&state, Input::Keyboard(key()), None, &mut messages);
    assert_eq!(status, Status::Captured);
    assert_eq!(messages, vec![size.clone(), Message::Key(key())]);

    let mut messages = Vec::new();
    let point = Point::new(3.0, 4.0);
    let status = wrapper.on_input(&state, Input::Mouse(click()), Some(point), &mut messages);
    assert_eq!(status, Status::Captured);
    assert_eq!(messages, vec![size.clone(), Message::Mouse(click(), point)]);

    let mut messages = Vec::new();
    let status = wrapper.on_input(&state, Input::Mouse(click()), None, &mut messages);
    assert_eq!(status, Status::Captured);
    assert_eq!(messages, vec![size.clone()]);

    let mut messages = Vec::new();
    let status = wrapper.on_input(&state, Input::Window, Some(point), &mut messages);
    assert_eq!(status, Status::Ignored);
    assert_eq!(messages, vec![size.clone()]);

    let mut messages = Vec::new();
    let status = wrapper.on_input(&state, Input::Touch, Some(point), &mut messages);
    assert_eq!(status, Status::Ignored);
    assert_eq!(messages, vec![size]);
}

#[test]
fn later_callback_replaces_the_earlier_one() {
    let wrapper = wrapper(Space::new(200, 100))
        .on_keyboard_event(|_| Message::Other(1))
        .on_keyboard_event(|_| Message::Other(2))
        .on_mouse_event(|_, _| Message::Other(3))
        .on_mouse_event(|_, _| Message::Other(4))
        .on_bounds_change(|_| Message::Other(5))
        .on_bounds_change(|_| Message::Other(6));
    let node = node();

    let mut messages = Vec::new();
    wrapper.on_event(
        &laid_out(),
        Event::Keyboard(key()),
        Layout::new(&node),
        over(),
        &mut messages,
    );
    assert_eq!(messages, vec![Message::Other(6), Message::Other(2)]);

    let mut messages = Vec::new();
    wrapper.on_event(
        &laid_out(),
        Event::Mouse(click()),
        Layout::new(&node),
        over(),
        &mut messages,
    );
    assert_eq!(messages, vec![Message::Other(6), Message::Other(4)]);
}

#[test]
fn callbacks_may_capture_their_surroundings() {
    let offset = 40u32;
    let wrapper = wrapper(Space::new(200, 100)).on_keyboard_event(|_| Message::Other(offset + 2));
    let node = node();
    let mut messages = Vec::new();
    wrapper.on_event(
        &WrapperState::new(),
        Event::Keyboard(key()),
        Layout::new(&node),
        over(),
        &mut messages,
    );
    assert_eq!(messages, vec![Message::Other(42)]);
}
