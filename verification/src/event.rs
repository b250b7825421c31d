//! What a widget is told during an event pass or a lifecycle pass.

use vstd::prelude::*;
use crate::geometry::{Point, Rect, Size, Vec2};

verus! {

/// An input event. Pointer positions are relative to the widget's top-left corner.
#[derive(Clone, Copy, Debug, PartialEq, Eq, Structural)]
pub enum Event {
    /// A pointer button went down at a position.
    MouseDown(Point),
    /// A pointer button went up at a position.
    MouseUp(Point),
    /// The pointer moved to a position.
    MouseMove(Point),
    /// The wheel or trackpad asked to scroll by a displacement.
    Wheel(Vec2),
    /// The timer that was requested with this token has fired.
    Timer(u64),
    /// A frame of animation is due; so many nanoseconds have passed since the last one.
    AnimFrame(u64),
    /// A descendant asks that a region, given in window coordinates, be brought into
    /// view.
    ScrollToView(Rect),
    /// Any other event.
    Other,
}

/// A change in a widget's circumstances.
#[derive(Clone, Copy, Debug, PartialEq, Eq, Structural)]
pub enum LifeCycle {
    /// The widget has joined the tree.
    WidgetAdded,
    /// The widget has been given a new size.
    Size(Size),
    /// Any other change.
    Other,
}

} // verus!
