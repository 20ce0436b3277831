//! The types and functions of `iced` that the wrapper works with.
//!
//! Every item in this file is taken on trust: the types are opaque, and the
//! contracts of the functions restate what `iced` 0.13 does.

use iced::advanced::layout::{Layout, Limits, Node};
use iced::advanced::renderer::Style;
use iced::advanced::widget::Tree;
use iced::mouse::Cursor;
use iced::{Element, Point, Rectangle, Renderer, Size, Theme};
use vstd::prelude::*;

verus! {

/// `iced::Event`: an input event of any kind.
#[verifier::external_type_specification]
#[verifier::external_body]
pub struct ExEvent(iced::Event);

/// `iced::keyboard::Event`: a key press, a key release or a change of modifiers.
#[verifier::external_type_specification]
#[verifier::external_body]
pub struct ExKeyboardEvent(iced::keyboard::Event);

/// `iced::mouse::Event`: a cursor movement, a button or the wheel.
#[verifier::external_type_specification]
#[verifier::external_body]
pub struct ExMouseEvent(iced::mouse::Event);

/// `iced::Point`: a position in two dimensions.
#[verifier::external_type_specification]
#[verifier::external_body]
#[verifier::reject_recursive_types(T)]
pub struct ExPoint<T>(Point<T>);

/// `iced::Size`: a width and a height.
#[verifier::external_type_specification]
#[verifier::external_body]
#[verifier::reject_recursive_types(T)]
pub struct ExSize<T>(Size<T>);

/// `iced::Rectangle`: an axis-aligned rectangle.
#[verifier::external_type_specification]
#[verifier::external_body]
#[verifier::reject_recursive_types(T)]
pub struct ExRectangle<T>(Rectangle<T>);

/// `iced::mouse::Cursor`: where the mouse cursor is, if it is anywhere.
#[verifier::external_type_specification]
#[verifier::external_body]
pub struct ExCursor(Cursor);

/// `iced::advanced::Layout`: a layout node seen in absolute coordinates.
#[verifier::external_type_specification]
#[verifier::external_body]
pub struct ExLayout<'a>(Layout<'a>);

/// `iced::advanced::layout::Node`: the bounds of an element and of its children.
#[verifier::external_type_specification]
#[verifier::external_body]
pub struct ExNode(Node);

/// `iced::advanced::layout::Limits`: the constraints of a layout pass.
#[verifier::external_type_specification]
#[verifier::external_body]
pub struct ExLimits(Limits);

/// `iced::advanced::widget::Tree`: the persistent state of a widget and its children.
#[verifier::external_type_specification]
#[verifier::external_body]
pub struct ExTree(Tree);

/// `iced::Theme`: the theme widgets are drawn with.
#[verifier::external_type_specification]
#[verifier::external_body]
pub struct ExTheme(Theme);

/// `iced::Renderer`: the renderer widgets are laid out and drawn with.
#[verifier::external_type_specification]
#[verifier::external_body]
pub struct ExRenderer(Renderer);

/// `iced::advanced::renderer::Style`: the defaults a parent hands down for drawing.
#[verifier::external_type_specification]
#[verifier::external_body]
pub struct ExStyle(Style);

/// `iced::Element`: a widget of any kind.
#[verifier::external_type_specification]
#[verifier::external_body]
#[verifier::reject_recursive_types(M)]
#[verifier::reject_recursive_types(T)]
#[verifier::reject_recursive_types(R)]
pub struct ExElement<'a, M, T, R>(Element<'a, M, T, R>);

/// The size of a layout node, as `Node::size` reports it.
pub uninterp spec fn node_size(node: Node) -> Size;

/// The children of a layout node in order, as `Node::children` lists them.
pub uninterp spec fn node_children(node: Node) -> Seq<Node>;

/// The absolute bounds of a layout, as `Layout::bounds` reports them.
pub uninterp spec fn layout_bounds(layout: Layout) -> Rectangle;

/// The layout of the first child of a layout, as the iterator of
/// `Layout::children` yields it first; `None` for a layout without children.
pub uninterp spec fn layout_first_child(layout: Layout) -> Option<Layout>;

/// The position of a cursor relative to the origin of `bounds`, as
/// `Cursor::position_in` computes it; `None` for a cursor that is unavailable
/// or not over `bounds`.
pub uninterp spec fn cursor_position_in(cursor: Cursor, bounds: Rectangle) -> Option<Point>;

/// `Node::size` builds the size from the width and height of the node's bounds.
/// The contract gives that size its name.
pub assume_specification[ Node::size ](node: &Node) -> (size: Size)
    ensures
        size == node_size(*node),
;

/// `Node::with_children` builds a node at the origin with the given size and
/// exactly the given children, each left as it is.
pub assume_specification[ Node::with_children ](size: Size, children: Vec<Node>) -> (node: Node)
    ensures
        node_size(node) == size,
        node_children(node) == children@,
;

/// `Layout::bounds` combines the layout's absolute position with the size of
/// its node. The contract gives that rectangle its name.
pub assume_specification<'a>[ Layout::<'a>::bounds ](layout: &Layout<'a>) -> (bounds: Rectangle)
    ensures
        bounds == layout_bounds(*layout),
;

/// `Cursor::position_in` returns the cursor's position minus the origin of
/// `bounds` when the cursor is available and `bounds` contains it, and `None`
/// otherwise. The contract gives that result its name.
pub assume_specification[ Cursor::position_in ](cursor: Cursor, bounds: Rectangle) -> (position:
    Option<Point>)
    ensures
        position == cursor_position_in(cursor, bounds),
;

/// Calls `next` once on the iterator of `Layout::children`, which walks the
/// children of the layout's node in order. The contract gives the result its
/// name.
#[verifier::external_body]
pub(crate) fn first_child<'a>(layout: Layout<'a>) -> (child: Option<Layout<'a>>)
    ensures
        child == layout_first_child(layout),
{
    layout.children().next()
}

/// Calls `Widget::layout` on the widget inside `content`. What comes back is
/// up to that widget, so the contract claims nothing of it.
#[verifier::external_body]
pub(crate) fn layout_child<'a, Message>(
    content: &Element<'a, Message, Theme, Renderer>,
    tree: &mut Tree,
    renderer: &Renderer,
    limits: &Limits,
) -> (node: Node) {
    content.as_widget().layout(tree, renderer, limits)
}

/// Calls `Widget::draw` on the widget inside `content`. What is drawn is up
/// to that widget, so the contract claims nothing of the renderer afterwards.
#[verifier::external_body]
pub(crate) fn draw_child<'a, Message>(
    content: &Element<'a, Message, Theme, Renderer>,
    tree: &Tree,
    renderer: &mut Renderer,
    theme: &Theme,
    style: &Style,
    layout: Layout<'_>,
    cursor: Cursor,
    viewport: &Rectangle,
) {
    content.as_widget().draw(tree, renderer, theme, style, layout, cursor, viewport)
}

} // verus!
