//! The wrapper itself.

use crate::callback::{Callback, Callback2};
use crate::host::{
    cursor_position_in, draw_child, first_child, layout_bounds, layout_child, layout_first_child,
    node_children, node_size,
};
use crate::input::{classify, input_of, Input};
use crate::model::{Extent, Status, WrapperView};
use crate::state::WrapperState;
use iced::advanced::layout::{Layout, Limits, Node};
use iced::advanced::renderer::Style;
use iced::advanced::widget::Tree;
use iced::mouse::Cursor;
use iced::{Element, Event, Point, Rectangle, Renderer, Size, Theme};
use vstd::prelude::*;

verus! {

/// Wraps `content`: short for [`Wrapper::new`].
pub fn wrapper<'a, Message>(content: impl Into<Element<'a, Message, Theme, Renderer>>) -> (wrapper:
    Wrapper<'a, Message>)
    ensures
        wrapper@ == WrapperView::<Message>::bare(),
        call_ensures(
            Into::<Element<'a, Message, Theme, Renderer>>::into,
            (content,),
            wrapper.child(),
        ),
{
    Wrapper::new(content)
}

/// Whether `node` is `child` enclosed as it is: of the same size, with
/// `child` as its only child.
pub open spec fn encloses(node: Node, child: Node) -> bool {
    &&& node_size(node) == node_size(child)
    &&& node_children(node) == seq![child]
}

/// Encloses the layout node of a child in a node of the same size.
pub fn enclose(child: Node) -> (node: Node)
    ensures
        encloses(node, child),
{
    let size = child.size();
    let children = vec![child];
    assert(children@ =~= seq![child]);
    Node::with_children(size, children)
}

/// Wraps a widget, so that keyboard events, mouse events and the size of the
/// last layout reach callbacks without a widget written for the purpose.
#[verifier::reject_recursive_types(Message)]
pub struct Wrapper<'a, Message> {
    content: Element<'a, Message, Theme, Renderer>,
    always_ignore_events: bool,
    on_keyboard_event: Option<Box<dyn Callback<iced::keyboard::Event, Message> + 'a>>,
    on_mouse_event: Option<Box<dyn Callback2<iced::mouse::Event, Point, Message> + 'a>>,
    on_bounds_change: Option<Box<dyn Callback<Size, Message> + 'a>>,
}

impl<'a, Message> View for Wrapper<'a, Message> {
    type V = WrapperView<Message>;

    closed spec fn view(&self) -> WrapperView<Message> {
        WrapperView {
            always_ignore: self.always_ignore_events,
            keyboard: match self.on_keyboard_event {
                Some(callback) => Some(
                    |event: iced::keyboard::Event, message: Message|
                        callback.produces(event, message),
                ),
                None => None,
            },
            mouse: match self.on_mouse_event {
                Some(callback) => Some(
                    |event: iced::mouse::Event, point: Point, message: Message|
                        callback.produces(event, point, message),
                ),
                None => None,
            },
            bounds: match self.on_bounds_change {
                Some(callback) => Some(
                    |size: Size, message: Message| callback.produces(size, message),
                ),
                None => None,
            },
        }
    }
}

impl<'a, Message> Wrapper<'a, Message> {
    /// Every registered callback may be called with every argument.
    #[verifier::type_invariant]
    spec fn callbacks_are_total(self) -> bool {
        &&& self.on_keyboard_event matches Some(callback) ==> forall|event: iced::keyboard::Event|
            callback.accepts(event)
        &&& self.on_mouse_event matches Some(callback) ==> forall|
            event: iced::mouse::Event,
            point: Point,
        | callback.accepts(event, point)
        &&& self.on_bounds_change matches Some(callback) ==> forall|size: Size|
            callback.accepts(size)
    }

    /// The wrapped element.
    pub closed spec fn child(&self) -> Element<'a, Message, Theme, Renderer> {
        self.content
    }

    /// Wraps `content`, with no callback registered and forwarded events
    /// reported as captured.
    pub fn new(content: impl Into<Element<'a, Message, Theme, Renderer>>) -> (wrapper: Self)
        ensures
            wrapper@ == WrapperView::<Message>::bare(),
            call_ensures(
                Into::<Element<'a, Message, Theme, Renderer>>::into,
                (content,),
                wrapper.child(),
            ),
    {
        Wrapper {
            content: content.into(),
            always_ignore_events: false,
            on_keyboard_event: None,
            on_mouse_event: None,
            on_bounds_change: None,
        }
    }

    /// Registers the callback for keyboard events, in place of any registered
    /// before.
    pub fn on_keyboard_event(
        self,
        on_keyboard_event: impl Fn(iced::keyboard::Event) -> Message + 'a,
    ) -> (wrapper: Self)
        requires
            forall|event: iced::keyboard::Event| call_requires(on_keyboard_event, (event,)),
        ensures
            wrapper@.keyboard matches Some(callback) && forall|
                event: iced::keyboard::Event,
                message: Message,
            |
                #![trigger callback(event, message)]
                #![trigger call_ensures(on_keyboard_event, (event,), message)]
                callback(event, message) <==> call_ensures(on_keyboard_event, (event,), message),
            wrapper@.always_ignore == self@.always_ignore,
            wrapper@.mouse == self@.mouse,
            wrapper@.bounds == self@.bounds,
            wrapper.child() == self.child(),
    {
        proof {
            use_type_invariant(&self);
        }
        let mut wrapper = self;
        wrapper.on_keyboard_event = Some(Box::new(on_keyboard_event));
        wrapper
    }

    /// Registers the callback for mouse events over the wrapper, in place of
    /// any registered before. The callback receives the event and the cursor's
    /// position relative to the wrapper.
    pub fn on_mouse_event(
        self,
        on_mouse_event: impl Fn(iced::mouse::Event, Point) -> Message + 'a,
    ) -> (wrapper: Self)
        requires
            forall|event: iced::mouse::Event, point: Point|
                call_requires(on_mouse_event, (event, point)),
        ensures
            wrapper@.mouse matches Some(callback) && forall|
                event: iced::mouse::Event,
                point: Point,
                message: Message,
            |
                #![trigger callback(event, point, message)]
                #![trigger call_ensures(on_mouse_event, (event, point), message)]
                callback(event, point, message) <==> call_ensures(
                    on_mouse_event,
                    (event, point),
                    message,
                ),
            wrapper@.always_ignore == self@.always_ignore,
            wrapper@.keyboard == self@.keyboard,
            wrapper@.bounds == self@.bounds,
            wrapper.child() == self.child(),
    {
        proof {
            use_type_invariant(&self);
        }
        let mut wrapper = self;
        wrapper.on_mouse_event = Some(Box::new(on_mouse_event));
        wrapper
    }

    /// Registers the callback for the size recorded by the last layout, in
    /// place of any registered before.
    pub fn on_bounds_change(self, on_bounds_change: impl Fn(Size) -> Message + 'a) -> (wrapper:
        Self)
        requires
            forall|size: Size| call_requires(on_bounds_change, (size,)),
        ensures
            wrapper@.bounds matches Some(callback) && forall|size: Size, message: Message|
                #![trigger callback(size, message)]
                #![trigger call_ensures(on_bounds_change, (size,), message)]
                callback(size, message) <==> call_ensures(on_bounds_change, (size,), message),
            wrapper@.always_ignore == self@.always_ignore,
            wrapper@.keyboard == self@.keyboard,
            wrapper@.mouse == self@.mouse,
            wrapper.child() == self.child(),
    {
        proof {
            use_type_invariant(&self);
        }
        let mut wrapper = self;
        wrapper.on_bounds_change = Some(Box::new(on_bounds_change));
        wrapper
    }

    /// Makes the wrapper report every event as ignored, also those it
    /// forwards, so that other widgets may react to them too.
    pub fn always_ignore_events(self) -> (wrapper: Self)
        ensures
            wrapper@.always_ignore,
            wrapper@.keyboard == self@.keyboard,
            wrapper@.mouse == self@.mouse,
            wrapper@.bounds == self@.bounds,
            wrapper.child() == self.child(),
    {
        proof {
            use_type_invariant(&self);
        }
        let mut wrapper = self;
        wrapper.always_ignore_events = true;
        wrapper
    }

    /// The wrapped element.
    pub fn content(&self) -> (content: &Element<'a, Message, Theme, Renderer>)
        ensures
            *content == self.child(),
    {
        &self.content
    }

    /// The room the wrapper asks for, as width and height: all there is, in
    /// both directions.
    pub fn size(&self) -> (size: (Extent, Extent))
        ensures
            size == (Extent::Fill, Extent::Fill),
    {
        (Extent::Fill, Extent::Fill)
    }

    /// Handles one sorted event: publishes to `messages` what the callbacks
    /// return and reports whether the event counts as handled.
    ///
    /// `state` is what the last layout pass left; `position` is the cursor's
    /// position relative to the wrapper, if the cursor is over it.
    pub fn on_input(
        &self,
        state: &WrapperState,
        input: Input,
        position: Option<Point>,
        messages: &mut Vec<Message>,
    ) -> (status: Status)
        ensures
            old(messages)@.len() <= final(messages)@.len(),
            forall|i: int|
                0 <= i < old(messages)@.len() ==> final(messages)@[i] == old(messages)@[i],
            self@.publishes(
                state@,
                input,
                position,
                final(messages)@.skip(old(messages)@.len() as int),
            ),
            status == self@.status(input),
    {
        proof {
            use_type_invariant(self);
        }
        if let Some(callback) = &self.on_bounds_change {
            if let Some(bounds) = state.bounds() {
                messages.push(callback.call(bounds));
            }
        }
        match input {
            Input::Keyboard(event) => {
                if let Some(callback) = &self.on_keyboard_event {
                    messages.push(callback.call(event));
                    self.forwarded_status()
                } else {
                    Status::Ignored
                }
            },
            Input::Mouse(event) => {
                if let Some(callback) = &self.on_mouse_event {
                    if let Some(point) = position {
                        messages.push(callback.call(event, point));
                    }
                    self.forwarded_status()
                } else {
                    Status::Ignored
                }
            },
            Input::Window => Status::Ignored,
            Input::Touch => Status::Ignored,
        }
    }

    /// Handles an event from the host: sorts it, finds the cursor's position
    /// relative to `layout`, and goes on as [`Wrapper::on_input`] does.
    pub fn on_event(
        &self,
        state: &WrapperState,
        event: Event,
        layout: Layout<'_>,
        cursor: Cursor,
        messages: &mut Vec<Message>,
    ) -> (status: Status)
        ensures
            old(messages)@.len() <= final(messages)@.len(),
            forall|i: int|
                0 <= i < old(messages)@.len() ==> final(messages)@[i] == old(messages)@[i],
            self@.publishes(
                state@,
                input_of(event),
                cursor_position_in(cursor, layout_bounds(layout)),
                final(messages)@.skip(old(messages)@.len() as int),
            ),
            status == self@.status(input_of(event)),
    {
        let input = classify(event);
        let position = cursor.position_in(layout.bounds());
        self.on_input(state, input, position, messages)
    }

    /// Lays the wrapper out within `limits`: the child is laid out within the
    /// same limits, its node is enclosed as it is, and its size is recorded in
    /// `state`.
    ///
    /// `child_tree` is the state tree of the child.
    pub fn layout(
        &self,
        state: &mut WrapperState,
        child_tree: &mut Tree,
        renderer: &Renderer,
        limits: &Limits,
    ) -> (node: Node)
        ensures
            node_children(node).len() == 1,
            encloses(node, node_children(node)[0]),
            final(state)@ == Some(node_size(node)),
    {
        let child = layout_child(&self.content, child_tree, renderer, limits);
        state.record(child.size());
        enclose(child)
    }

    /// Draws the wrapper: the child is drawn in the first child of `layout`,
    /// with the theme, style, cursor and viewport given.
    ///
    /// `child_tree` is the state tree of the child. `layout` must have a
    /// child, as the layout of a node from [`Wrapper::layout`] has.
    pub fn draw(
        &self,
        child_tree: &Tree,
        renderer: &mut Renderer,
        theme: &Theme,
        style: &Style,
        layout: Layout<'_>,
        cursor: Cursor,
        viewport: &Rectangle,
    )
        requires
            layout_first_child(layout) is Some,
    {
        let child = first_child(layout).unwrap();
        draw_child(&self.content, child_tree, renderer, theme, style, child, cursor, viewport);
    }

    /// Draws the wrapper as [`Wrapper::draw`] does if `layout` has a child,
    /// and draws nothing if it has none. Says whether it drew.
    pub fn try_draw(
        &self,
        child_tree: &Tree,
        renderer: &mut Renderer,
        theme: &Theme,
        style: &Style,
        layout: Layout<'_>,
        cursor: Cursor,
        viewport: &Rectangle,
    ) -> (drawn: bool)
        ensures
            drawn == layout_first_child(layout) is Some,
            !drawn ==> *final(renderer) == *old(renderer),
    {
        if first_child(layout).is_some() {
            self.draw(child_tree, renderer, theme, style, layout, cursor, viewport);
            true
        } else {
            false
        }
    }

    /// The status for an event that a registered callback stands for.
    fn forwarded_status(&self) -> (status: Status)
        ensures
            status == self@.forwarded_status(),
    {
        if self.always_ignore_events {
            Status::Ignored
        } else {
            Status::Captured
        }
    }
}

} // verus!
