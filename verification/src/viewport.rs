//! The visible window onto a larger content area.

use vstd::prelude::*;
use crate::context::EventCtx;
use crate::geometry::{Axis, Offset, Point, Rect, Size, Vec2, UNBOUNDED};

verus! {

/// How far the window may move along one axis: the largest origin coordinate that
/// still keeps the window inside content of extent `content`.
///
/// Content that does not exceed the window cannot be scrolled. Content of unbounded
/// extent has no far edge to scroll towards, so the window stays at its near edge.
pub open spec fn scroll_range(content: u32, view: u32) -> int {
    if content == UNBOUNDED || content <= view {
        0
    } else {
        content - view
    }
}

/// The coordinate in `0 ..= scroll_range(content, view)` that is closest to `target`.
pub open spec fn clamp_to_range(target: int, content: u32, view: u32) -> int {
    if target <= 0 {
        0
    } else if target >= scroll_range(content, view) {
        scroll_range(content, view)
    } else {
        target
    }
}

/// Where a window of extent `view` that starts at `origin` has to start to show the
/// span from `near` to `far`, moving as little as possible.
///
/// A span longer than the window is cut at its far end first, so that its near part
/// is what gets shown.
pub open spec fn reveal_on_axis(origin: int, view: int, near: int, far: int) -> int {
    let far = if far - near > view {
        near + view
    } else {
        far
    };
    if near < origin {
        near
    } else if far > origin + view {
        far - view
    } else {
        origin
    }
}

/// The window's state: how large the content is, how large the window is, and where in
/// the content the window's top-left corner lies.
#[derive(Clone, Copy, Debug, PartialEq, Eq, Structural)]
pub struct Viewport {
    /// The size of the content.
    pub content_size: Size,
    /// The top-left corner of the window, in content coordinates.
    pub view_origin: Offset,
    /// The size of the window.
    pub view_size: Size,
}

pub(crate) fn scroll_range_of(content: u32, view: u32) -> (range: u32)
    ensures
        range == scroll_range(content, view),
{
    if content == UNBOUNDED || content <= view {
        0
    } else {
        content - view
    }
}

fn clamp_axis(target: i128, content: u32, view: u32) -> (coordinate: u32)
    ensures
        coordinate == clamp_to_range(target as int, content, view),
{
    let range = scroll_range_of(content, view);
    if target <= 0 {
        0
    } else if target >= range as i128 {
        range
    } else {
        target as u32
    }
}

fn reveal_axis(origin: u32, view: u32, near: i128, far: i128) -> (target: i128)
    requires
        -0x1_0000_0000_0000_0000_0000 <= near <= 0x1_0000_0000_0000_0000_0000,
        -0x1_0000_0000_0000_0000_0000 <= far <= 0x1_0000_0000_0000_0000_0000,
    ensures
        target == reveal_on_axis(origin as int, view as int, near as int, far as int),
{
    let far = if far - near > view as i128 {
        near + view as i128
    } else {
        far
    };
    if near < origin as i128 {
        near
    } else if far > origin as i128 + view as i128 {
        far - view as i128
    } else {
        origin as i128
    }
}

impl Viewport {
    /// A window of size `view_size` at the top-left corner of content of size
    /// `content_size`.
    pub open spec fn spec_new(content_size: Size, view_size: Size) -> Viewport {
        Viewport { content_size, view_origin: Offset { x: 0, y: 0 }, view_size }
    }

    /// A window of size `view_size` at the top-left corner of content of size
    /// `content_size`.
    #[verifier::when_used_as_spec(spec_new)]
    pub fn new(content_size: Size, view_size: Size) -> (port: Viewport)
        ensures
            port == Viewport::spec_new(content_size, view_size),
    {
        Viewport { content_size, view_origin: Offset::zero(), view_size }
    }

    /// The largest origin coordinate along `axis`.
    pub open spec fn max_origin(self, axis: Axis) -> int {
        scroll_range(axis.spec_major(self.content_size), axis.spec_major(self.view_size))
    }

    /// The window lies inside the content on both axes, as far as the content allows.
    pub open spec fn in_range(self) -> bool {
        &&& self.view_origin.x <= self.max_origin(Axis::Horizontal)
        &&& self.view_origin.y <= self.max_origin(Axis::Vertical)
    }

    /// The origin closest to `(x, y)` that keeps the window in range.
    pub open spec fn clamped(self, x: int, y: int) -> Offset {
        Offset {
            x: clamp_to_range(x, self.content_size.width, self.view_size.width) as u32,
            y: clamp_to_range(y, self.content_size.height, self.view_size.height) as u32,
        }
    }

    /// This window moved as close to `(x, y)` as its range allows.
    pub open spec fn panned_to(self, x: int, y: int) -> Viewport {
        Viewport { view_origin: self.clamped(x, y), ..self }
    }

    /// This window moved by `delta`, as far as its range allows.
    pub open spec fn panned_by(self, delta: Vec2) -> Viewport {
        self.panned_to(self.view_origin.x + delta.x, self.view_origin.y + delta.y)
    }

    /// This window moved as little as possible to show the region between the given
    /// edges, as far as its range allows.
    pub open spec fn revealing(self, x0: int, y0: int, x1: int, y1: int) -> Viewport {
        self.panned_to(
            reveal_on_axis(self.view_origin.x as int, self.view_size.width as int, x0, x1),
            reveal_on_axis(self.view_origin.y as int, self.view_size.height as int, y0, y1),
        )
    }

    /// The visible region, in content coordinates.
    pub open spec fn spec_view_rect(&self) -> Rect {
        Rect::spec_from_origin_size(self.view_origin, self.view_size)
    }

    /// The visible region, in content coordinates.
    #[verifier::when_used_as_spec(spec_view_rect)]
    pub fn view_rect(&self) -> (rect: Rect)
        ensures
            rect == self.spec_view_rect(),
            rect.x0 == self.view_origin.x,
            rect.y0 == self.view_origin.y,
            rect.x1 == self.view_origin.x + self.view_size.width,
            rect.y1 == self.view_origin.y + self.view_size.height,
    {
        Rect::from_origin_size(self.view_origin, self.view_size)
    }

    /// The origin closest to `origin` that keeps the window in range.
    pub fn clamp_view_origin(&self, origin: Point) -> (clamped: Offset)
        ensures
            clamped == self.clamped(origin.x as int, origin.y as int),
    {
        Offset {
            x: clamp_axis(origin.x as i128, self.content_size.width, self.view_size.width),
            y: clamp_axis(origin.y as i128, self.content_size.height, self.view_size.height),
        }
    }

    pub(crate) fn pan_to_wide(&mut self, x: i128, y: i128) -> (changed: bool)
        ensures
            *final(self) == old(self).panned_to(x as int, y as int),
            changed == (final(self).view_origin != old(self).view_origin),
    {
        let origin = Offset {
            x: clamp_axis(x, self.content_size.width, self.view_size.width),
            y: clamp_axis(y, self.content_size.height, self.view_size.height),
        };
        let changed = origin.x != self.view_origin.x || origin.y != self.view_origin.y;
        self.view_origin = origin;
        changed
    }

    /// Moves the window as close to `origin` as its range allows. Tells whether the
    /// window moved.
    pub fn pan_to(&mut self, origin: Point) -> (changed: bool)
        ensures
            *final(self) == old(self).panned_to(origin.x as int, origin.y as int),
            changed == (final(self).view_origin != old(self).view_origin),
    {
        self.pan_to_wide(origin.x as i128, origin.y as i128)
    }

    /// Moves the window by `delta`, as far as its range allows. Tells whether the window
    /// moved.
    pub fn pan_by(&mut self, delta: Vec2) -> (changed: bool)
        ensures
            *final(self) == old(self).panned_by(delta),
            changed == (final(self).view_origin != old(self).view_origin),
    {
        self.pan_to_wide(
            self.view_origin.x as i128 + delta.x as i128,
            self.view_origin.y as i128 + delta.y as i128,
        )
    }

    /// Moves the window to `position` along `axis`, as far as its range allows, and
    /// re-clamps it across. Tells whether the window moved.
    pub fn pan_to_on_axis(&mut self, axis: Axis, position: i64) -> (changed: bool)
        ensures
            *final(self) == match axis {
                Axis::Horizontal => old(self).panned_to(
                    position as int,
                    old(self).view_origin.y as int,
                ),
                Axis::Vertical => old(self).panned_to(
                    old(self).view_origin.x as int,
                    position as int,
                ),
            },
            changed == (final(self).view_origin != old(self).view_origin),
    {
        match axis {
            Axis::Horizontal => self.pan_to_wide(position as i128, self.view_origin.y as i128),
            Axis::Vertical => self.pan_to_wide(self.view_origin.x as i128, position as i128),
        }
    }

    /// Moves the window as little as possible to show the region between the given
    /// edges, as far as its range allows. Tells whether the window moved.
    pub(crate) fn pan_to_span(&mut self, x0: i128, y0: i128, x1: i128, y1: i128) -> (changed: bool)
        requires
            -0x1_0000_0000_0000_0000_0000 <= x0 <= 0x1_0000_0000_0000_0000_0000,
            -0x1_0000_0000_0000_0000_0000 <= y0 <= 0x1_0000_0000_0000_0000_0000,
            -0x1_0000_0000_0000_0000_0000 <= x1 <= 0x1_0000_0000_0000_0000_0000,
            -0x1_0000_0000_0000_0000_0000 <= y1 <= 0x1_0000_0000_0000_0000_0000,
        ensures
            *final(self) == old(self).revealing(x0 as int, y0 as int, x1 as int, y1 as int),
            changed == (final(self).view_origin != old(self).view_origin),
    {
        let x = reveal_axis(self.view_origin.x, self.view_size.width, x0, x1);
        let y = reveal_axis(self.view_origin.y, self.view_size.height, y0, y1);
        self.pan_to_wide(x, y)
    }

    /// Moves the window as little as possible to show `region`, as far as its range
    /// allows. Of a region larger than the window, the part nearest to the content's
    /// origin is shown. Tells whether the window moved.
    pub fn pan_to_visible(&mut self, region: Rect) -> (changed: bool)
        ensures
            *final(self) == old(self).revealing(
                region.x0 as int,
                region.y0 as int,
                region.x1 as int,
                region.y1 as int,
            ),
            changed == (final(self).view_origin != old(self).view_origin),
    {
        self.pan_to_span(
            region.x0 as i128,
            region.y0 as i128,
            region.x1 as i128,
            region.y1 as i128,
        )
    }

    /// This window moved as little as possible to show a region that is given in the
    /// coordinates of the surrounding window, in which this window's top-left corner
    /// lies at `window_origin`.
    pub open spec fn revealing_global(self, window_origin: Point, region: Rect) -> Viewport {
        self.revealing(
            region.x0 - window_origin.x + self.view_origin.x,
            region.y0 - window_origin.y + self.view_origin.y,
            region.x1 - window_origin.x + self.view_origin.x,
            region.y1 - window_origin.y + self.view_origin.y,
        )
    }

    /// Brings into view a region that is given in the coordinates of the surrounding
    /// window, and asks for a repaint if the window moved. Tells whether it moved.
    pub fn default_scroll_to_view_handling(
        &mut self,
        ctx: &mut EventCtx,
        global_highlight_rect: Rect,
    ) -> (changed: bool)
        ensures
            *final(self) == old(self).revealing_global(
                old(ctx).window_origin,
                global_highlight_rect,
            ),
            changed == (final(self).view_origin != old(self).view_origin),
            final(ctx)@ == if changed {
                old(ctx)@.paint()
            } else {
                old(ctx)@
            },
    {
        let dx = self.view_origin.x as i128 - ctx.window_origin().x as i128;
        let dy = self.view_origin.y as i128 - ctx.window_origin().y as i128;
        let changed = self.pan_to_span(
            global_highlight_rect.x0 as i128 + dx,
            global_highlight_rect.y0 as i128 + dy,
            global_highlight_rect.x1 as i128 + dx,
            global_highlight_rect.y1 as i128 + dy,
        );
        if changed {
            ctx.request_paint();
        }
        changed
    }
}

/// Wherever a window is asked to go, it ends up inside the content: on each axis its
/// origin is at least zero and at most the amount by which the content exceeds the
/// window, or zero where the content does not exceed it.
pub proof fn lemma_pan_stays_in_range(port: Viewport, delta: Vec2)
    ensures
        port.panned_by(delta).in_range(),
        port.panned_by(delta).content_size == port.content_size,
        port.panned_by(delta).view_size == port.view_size,
        0 <= port.panned_by(delta).view_origin.x <= vstd::math::max(
            0,
            port.content_size.width - port.view_size.width,
        ),
        0 <= port.panned_by(delta).view_origin.y <= vstd::math::max(
            0,
            port.content_size.height - port.view_size.height,
        ),
{
}

/// Wherever a window is sent, be it to a position or to reveal a region, it ends up
/// inside the content, and its sizes stay as they are.
pub proof fn lemma_every_move_stays_in_range(port: Viewport, x0: int, y0: int, x1: int, y1: int)
    ensures
        port.panned_to(x0, y0).in_range(),
        port.panned_to(x0, y0).content_size == port.content_size,
        port.panned_to(x0, y0).view_size == port.view_size,
        port.revealing(x0, y0, x1, y1).in_range(),
        port.revealing(x0, y0, x1, y1).content_size == port.content_size,
        port.revealing(x0, y0, x1, y1).view_size == port.view_size,
{
}

/// Moving by nothing leaves a window that is in range where it is, and brings any other
/// window into range.
pub proof fn lemma_zero_pan_settles(port: Viewport)
    ensures
        port.in_range() ==> port.panned_by(Vec2 { x: 0, y: 0 }) == port,
        port.panned_by(Vec2 { x: 0, y: 0 }).in_range(),
{
}

/// The part of the content that a window can show along `axis` at some point of its
/// range reaches from the content's near edge to this coordinate.
pub open spec fn reach(port: Viewport, axis: Axis) -> int {
    port.max_origin(axis) + axis.spec_major(port.view_size)
}

/// Along an axis on which a region is no longer than the window, and on which the
/// window can reach the region, the window shows the whole region once it has been asked
/// to reveal it.
pub proof fn lemma_revealed_span_is_visible(port: Viewport, region: Rect, axis: Axis)
    requires
        region.near(axis) <= region.far(axis),
        region.extent(axis) <= axis.spec_major(port.view_size),
        0 <= region.near(axis),
        region.far(axis) <= reach(port, axis),
    ensures
        ({
            let shown = port.revealing(
                region.x0 as int,
                region.y0 as int,
                region.x1 as int,
                region.y1 as int,
            ).spec_view_rect();
            shown.near(axis) <= region.near(axis) && region.far(axis) <= shown.far(axis)
        }),
{
}

/// A region that is no larger than the window and that the window can reach lies wholly
/// in the visible region once the window has been asked to reveal it.
pub proof fn lemma_revealed_region_is_visible(port: Viewport, region: Rect)
    requires
        region.is_proper(),
        region.extent(Axis::Horizontal) <= port.view_size.width,
        region.extent(Axis::Vertical) <= port.view_size.height,
        0 <= region.x0,
        0 <= region.y0,
        region.x1 <= reach(port, Axis::Horizontal),
        region.y1 <= reach(port, Axis::Vertical),
    ensures
        port.revealing(
            region.x0 as int,
            region.y0 as int,
            region.x1 as int,
            region.y1 as int,
        ).spec_view_rect().encloses(region),
{
    lemma_revealed_span_is_visible(port, region, Axis::Horizontal);
    lemma_revealed_span_is_visible(port, region, Axis::Vertical);
}

/// Revealing a span that fits the window asks for a window that shows the span, and no
/// window that shows the span lies closer to where the window was.
pub proof fn lemma_reveal_moves_least(origin: int, view: int, near: int, far: int, other: int)
    requires
        near <= far,
        other <= near,
        far <= other + view,
    ensures
        reveal_on_axis(origin, view, near, far) <= near,
        far <= reveal_on_axis(origin, view, near, far) + view,
        vstd::math::abs(reveal_on_axis(origin, view, near, far) - origin) <= vstd::math::abs(
            other - origin,
        ),
{
}

/// Along an axis on which a region is longer than the window, the window starts where
/// the region starts once it has been asked to reveal it, provided its range lets it
/// start there.
pub proof fn lemma_oversized_span_aligns_near_edge(port: Viewport, region: Rect, axis: Axis)
    requires
        region.extent(axis) > axis.spec_major(port.view_size),
        0 <= region.near(axis) <= port.max_origin(axis),
    ensures
        port.revealing(
            region.x0 as int,
            region.y0 as int,
            region.x1 as int,
            region.y1 as int,
        ).spec_view_rect().near(axis) == region.near(axis),
{
}

} // verus!
