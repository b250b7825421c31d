//! A container that scrolls its content.

use vstd::prelude::*;
use crate::clip_box::{size_warnings, ClipBox};
use crate::constraints::BoxConstraints;
use crate::context::{
    ChangeCtx,
    EventCtx,
    EventCtxView,
    LayoutCtx,
    LayoutCtxView,
    LifeCycleCtx,
    LifeCycleCtxView,
    PaintCtx,
    PaintOp,
    UpdateCtx,
};
use crate::debug_state::DebugState;
use crate::env::Env;
use crate::event::{Event, LifeCycle};
use crate::geometry::{Axis, Rect, Size, Vec2};
use crate::scroll_component::{ScrollComponent, ScrollbarsEnabled};
use crate::snap::Snap;
use crate::viewport::Viewport;
use crate::widget::Widget;

verus! {

/// A container that scrolls its content.
///
/// The container holds one child and shows it through a window. The wheel, the
/// scrollbars and requests to bring a region into view move the window when the child
/// is larger than the window.
///
/// The child is laid out free of upper bounds. [`Scroll::vertical`] and
/// [`Scroll::horizontal`] restrict scrolling to one axis; the child may then not grow
/// beyond the container on the other axis.
#[verifier::reject_recursive_types(T)]
pub struct Scroll<T, W> {
    pub clip: ClipBox<W>,
    pub scroll_component: ScrollComponent,
    pub scroll_snap_vertical: Snap<T>,
    pub scroll_snap_horizontal: Snap<T>,
}

/// The displacement that takes a window to the far edge of its content on each axis
/// that is to snap, and nowhere on the other.
pub open spec fn snap_distance(port: Viewport, snap_vertical: bool, snap_horizontal: bool) -> Vec2 {
    Vec2 {
        x: if snap_horizontal {
            (port.content_size.width - (port.view_origin.x + port.view_size.width)) as i64
        } else {
            0
        },
        y: if snap_vertical {
            (port.content_size.height - (port.view_origin.y + port.view_size.height)) as i64
        } else {
            0
        },
    }
}

/// The outcome of the part of a layout that follows the child's: `port` is the window
/// with its new sizes, `old_content_size` and `old_view_size` are the sizes it had
/// before, and `snap_vertical` and `snap_horizontal` are the answers of the snap rules.
///
/// The window is brought back into range. A container whose size has changed shows its
/// bars and restarts the fade cycle. Where a snap rule answers `true` and the content's
/// size has changed, the window goes to the content's far edge on each axis whose rule
/// answers `true`. Every move of the window is reported to the context.
pub open spec fn settled(
    bars: ScrollComponent,
    port: Viewport,
    ctx: LayoutCtxView,
    old_content_size: Size,
    old_view_size: Size,
    snap_vertical: bool,
    snap_horizontal: bool,
    env: Env,
) -> (ScrollComponent, Viewport, LayoutCtxView) {
    let clamped = port.panned_by(Vec2 { x: 0, y: 0 });
    let ctx = if clamped.view_origin != port.view_origin {
        ctx.moved()
    } else {
        ctx
    };
    let (bars, ctx) = if old_view_size != port.view_size {
        (bars.restarted(), ctx.timer(bars.fade_timer(env)))
    } else {
        (bars, ctx)
    };
    if (snap_vertical || snap_horizontal) && port.content_size != old_content_size {
        let snapped = clamped.panned_by(snap_distance(clamped, snap_vertical, snap_horizontal));
        let ctx = if snapped.view_origin != clamped.view_origin {
            ctx.moved()
        } else {
            ctx
        };
        (bars, snapped, ctx)
    } else {
        (bars, clamped, ctx)
    }
}

/// The outcome of the part of an event pass that follows the child's: `ctx` is the
/// context as the child left it.
///
/// A wheel event that nothing has dealt with scrolls the window. Unless a bar is
/// being dragged, a request to bring a region into view is dealt with by moving the
/// window as little as possible; a window that moved asks for a repaint, shows the bars
/// and restarts the fade cycle.
pub open spec fn after_content(
    bars: ScrollComponent,
    port: Viewport,
    ctx: EventCtxView,
    event: Event,
    env: Env,
) -> (ScrollComponent, Viewport, EventCtxView) {
    let (bars, port, ctx) = bars.after_scroll(port, ctx, event, env);
    match event {
        Event::ScrollToView(region) => if bars.spec_are_bars_held() {
            (bars, port, ctx)
        } else {
            let shown = port.revealing_global(ctx.window_origin, region);
            if shown.view_origin != port.view_origin {
                (bars.restarted(), shown, ctx.handled().paint().timer(bars.fade_timer(env)))
            } else {
                (bars, shown, ctx.handled())
            }
        },
        _ => (bars, port, ctx),
    }
}

impl<T, W: Widget<T>> Scroll<T, W> {
    /// A container that scrolls `child` in both directions, with both scrollbars
    /// enabled and without snapping.
    pub fn new(child: W) -> (scroll: Scroll<T, W>)
        ensures
            scroll.clip == ClipBox::spec_managed(child),
            scroll.scroll_component == ScrollComponent::spec_new(),
            scroll.scroll_snap_vertical is Never,
            scroll.scroll_snap_horizontal is Never,
    {
        Scroll {
            clip: ClipBox::managed(child),
            scroll_component: ScrollComponent::new(),
            scroll_snap_vertical: Snap::Never,
            scroll_snap_horizontal: Snap::Never,
        }
    }

    /// Scrolls by `delta`, as far as the content allows. Tells whether the window
    /// moved, and reports a move to `ctx`.
    pub fn scroll_by<C: ChangeCtx>(&mut self, ctx: &mut C, delta: Vec2) -> (changed: bool)
        ensures
            *final(self) == (Scroll {
                clip: ClipBox { port: old(self).clip.port.panned_by(delta), ..old(self).clip },
                ..*old(self)
            }),
            changed == (final(self).clip.port.view_origin != old(self).clip.port.view_origin),
            *final(ctx) == if changed {
                old(ctx).moved()
            } else {
                *old(ctx)
            },
    {
        self.clip.pan_by(ctx, delta)
    }

    /// Scrolls as little as possible to show `region`, which is given in content
    /// coordinates. Of a region larger than the window, the part nearest to the
    /// content's origin is shown. Tells whether the window moved, and reports a move to
    /// `ctx`.
    pub fn scroll_to<C: ChangeCtx>(&mut self, ctx: &mut C, region: Rect) -> (changed: bool)
        ensures
            *final(self) == (Scroll {
                clip: ClipBox {
                    port: old(self).clip.port.revealing(
                        region.x0 as int,
                        region.y0 as int,
                        region.x1 as int,
                        region.y1 as int,
                    ),
                    ..old(self).clip
                },
                ..*old(self)
            }),
            changed == (final(self).clip.port.view_origin != old(self).clip.port.view_origin),
            *final(ctx) == if changed {
                old(ctx).moved()
            } else {
                *old(ctx)
            },
    {
        self.clip.pan_to_visible(ctx, region)
    }

    /// Scrolls to `position` along `axis`, as far as the content allows. Tells whether
    /// the window moved, and reports a move to `ctx`.
    pub fn scroll_to_on_axis<C: ChangeCtx>(
        &mut self,
        ctx: &mut C,
        axis: Axis,
        position: i64,
    ) -> (changed: bool)
        ensures
            *final(self) == (Scroll {
                clip: ClipBox {
                    port: match axis {
                        Axis::Horizontal => old(self).clip.port.panned_to(
                            position as int,
                            old(self).clip.port.view_origin.y as int,
                        ),
                        Axis::Vertical => old(self).clip.port.panned_to(
                            old(self).clip.port.view_origin.x as int,
                            position as int,
                        ),
                    },
                    ..old(self).clip
                },
                ..*old(self)
            }),
            changed == (final(self).clip.port.view_origin != old(self).clip.port.view_origin),
            *final(ctx) == if changed {
                old(ctx).moved()
            } else {
                *old(ctx)
            },
    {
        self.clip.pan_to_on_axis(ctx, axis, position)
    }
}

impl<T, W> Scroll<T, W> {
    /// Restricts scrolling to the vertical axis: only the vertical bar is enabled, and
    /// the child may not be wider than the container.
    pub fn vertical(self) -> (scroll: Self)
        ensures
            scroll == (Scroll {
                clip: ClipBox {
                    constrain_vertical: false,
                    constrain_horizontal: true,
                    ..self.clip
                },
                scroll_component: ScrollComponent {
                    enabled: ScrollbarsEnabled::Vertical,
                    ..self.scroll_component
                },
                ..self
            }),
    {
        let mut scroll = self;
        scroll.scroll_component.enabled = ScrollbarsEnabled::Vertical;
        scroll.clip.set_constrain_vertical(false);
        scroll.clip.set_constrain_horizontal(true);
        scroll
    }

    /// Restricts scrolling to the horizontal axis: only the horizontal bar is enabled,
    /// and the child may not be taller than the container.
    pub fn horizontal(self) -> (scroll: Self)
        ensures
            scroll == (Scroll {
                clip: ClipBox {
                    constrain_vertical: true,
                    constrain_horizontal: false,
                    ..self.clip
                },
                scroll_component: ScrollComponent {
                    enabled: ScrollbarsEnabled::Horizontal,
                    ..self.scroll_component
                },
                ..self
            }),
    {
        let mut scroll = self;
        scroll.scroll_component.enabled = ScrollbarsEnabled::Horizontal;
        scroll.clip.set_constrain_vertical(true);
        scroll.clip.set_constrain_horizontal(false);
        scroll
    }

    /// Sets whether the child must be at least as large as the smallest size that the
    /// container itself may take. It need not by default.
    pub fn content_must_fill(self, must_fill: bool) -> (scroll: Self)
        ensures
            scroll == (Scroll { clip: ClipBox { must_fill, ..self.clip }, ..self }),
    {
        let mut scroll = self;
        scroll.set_content_must_fill(must_fill);
        scroll
    }

    /// Makes the window snap to the bottom of the content whenever the content's size
    /// has changed in a layout and `snap` answers `true` for the data and settings of
    /// that layout.
    pub fn with_snap_vertical(self, snap: impl Fn(&T, &Env) -> bool + 'static) -> (scroll:
        Self) where T: 'static
        requires
            forall|data: &T, env: &Env| call_requires(snap, (data, env)),
        ensures
            scroll == (Scroll { scroll_snap_vertical: scroll.scroll_snap_vertical, ..self }),
            scroll.scroll_snap_vertical is When,
            forall|data: &T, env: &Env, answer: bool| #[trigger]
                scroll.scroll_snap_vertical.decides(data, env, answer) == call_ensures(
                    snap,
                    (data, env),
                    answer,
                ),
    {
        let mut scroll = self;
        scroll.scroll_snap_vertical = Snap::when(snap);
        scroll
    }

    /// Makes the window snap to the right edge of the content whenever the content's
    /// size has changed in a layout and `snap` answers `true` for the data and settings
    /// of that layout.
    pub fn with_snap_horizontal(self, snap: impl Fn(&T, &Env) -> bool + 'static) -> (scroll:
        Self) where T: 'static
        requires
            forall|data: &T, env: &Env| call_requires(snap, (data, env)),
        ensures
            scroll == (Scroll { scroll_snap_horizontal: scroll.scroll_snap_horizontal, ..self }),
            scroll.scroll_snap_horizontal is When,
            forall|data: &T, env: &Env, answer: bool| #[trigger]
                scroll.scroll_snap_horizontal.decides(data, env, answer) == call_ensures(
                    snap,
                    (data, env),
                    answer,
                ),
    {
        let mut scroll = self;
        scroll.scroll_snap_horizontal = Snap::when(snap);
        scroll
    }

    /// Disables both scrollbars. The wheel still scrolls.
    pub fn disable_scrollbars(self) -> (scroll: Self)
        ensures
            scroll == (Scroll {
                scroll_component: ScrollComponent {
                    enabled: ScrollbarsEnabled::Neither,
                    ..self.scroll_component
                },
                ..self
            }),
    {
        let mut scroll = self;
        scroll.scroll_component.enabled = ScrollbarsEnabled::Neither;
        scroll
    }

    /// Sets whether the child must be at least as large as the smallest size that the
    /// container itself may take.
    pub fn set_content_must_fill(&mut self, must_fill: bool)
        ensures
            *final(self) == (Scroll {
                clip: ClipBox { must_fill, ..old(self).clip },
                ..*old(self)
            }),
    {
        self.clip.set_content_must_fill(must_fill);
    }

    /// Sets which scrollbars are enabled. The wheel scrolls whatever this says.
    pub fn set_enabled_scrollbars(&mut self, enabled: ScrollbarsEnabled)
        ensures
            *final(self) == (Scroll {
                scroll_component: ScrollComponent { enabled, ..old(self).scroll_component },
                ..*old(self)
            }),
    {
        self.scroll_component.enabled = enabled;
    }

    /// Sets whether the content can be scrolled vertically: if so, the child may be
    /// taller than the container and the vertical bar is enabled; if not, neither.
    pub fn set_vertical_scroll_enabled(&mut self, enabled: bool)
        ensures
            *final(self) == (Scroll {
                clip: ClipBox { constrain_vertical: !enabled, ..old(self).clip },
                scroll_component: ScrollComponent {
                    enabled: ScrollbarsEnabled::of(
                        old(self).scroll_component.enabled.spec_is_enabled(Axis::Horizontal),
                        enabled,
                    ),
                    ..old(self).scroll_component
                },
                ..*old(self)
            }),
    {
        self.clip.set_constrain_vertical(!enabled);
        self.scroll_component.enabled.set_vertical_scrollbar_enabled(enabled);
    }

    /// Sets whether the content can be scrolled horizontally: if so, the child may be
    /// wider than the container and the horizontal bar is enabled; if not, neither.
    pub fn set_horizontal_scroll_enabled(&mut self, enabled: bool)
        ensures
            *final(self) == (Scroll {
                clip: ClipBox { constrain_horizontal: !enabled, ..old(self).clip },
                scroll_component: ScrollComponent {
                    enabled: ScrollbarsEnabled::of(
                        enabled,
                        old(self).scroll_component.enabled.spec_is_enabled(Axis::Vertical),
                    ),
                    ..old(self).scroll_component
                },
                ..*old(self)
            }),
    {
        self.clip.set_constrain_horizontal(!enabled);
        self.scroll_component.enabled.set_horizontal_scrollbar_enabled(enabled);
    }

    /// The child.
    pub fn child(&self) -> (child: &W)
        ensures
            *child == self.clip.child,
    {
        self.clip.child()
    }

    /// The child, to be changed in place.
    pub fn child_mut(&mut self) -> (child: &mut W)
        ensures
            *child == old(self).clip.child,
            *final(self) == (Scroll {
                clip: ClipBox { child: *final(child), ..old(self).clip },
                ..*old(self)
            }),
    {
        self.clip.child_mut()
    }

    /// The size of the content.
    pub fn child_size(&self) -> (size: Size)
        ensures
            size == self.clip.port.content_size,
    {
        self.clip.content_size()
    }

    /// How far the window has been scrolled from the content's top-left corner.
    pub fn offset(&self) -> (offset: Vec2)
        ensures
            offset.x == self.clip.port.view_origin.x,
            offset.y == self.clip.port.view_origin.y,
    {
        self.clip.viewport_origin().to_vec2()
    }

    /// The visible region, in content coordinates.
    pub fn viewport_rect(&self) -> (rect: Rect)
        ensures
            rect == self.clip.port.spec_view_rect(),
            rect.x0 == self.clip.port.view_origin.x,
            rect.y0 == self.clip.port.view_origin.y,
            rect.x1 == self.clip.port.view_origin.x + self.clip.port.view_size.width,
            rect.y1 == self.clip.port.view_origin.y + self.clip.port.view_size.height,
    {
        self.clip.viewport().view_rect()
    }

    /// How far the window has been scrolled along `axis`.
    pub fn offset_for_axis(&self, axis: Axis) -> (offset: i64)
        ensures
            offset == axis.spec_major_offset(self.clip.port.view_origin),
    {
        axis.major_offset(self.clip.viewport_origin()) as i64
    }

    /// Does the part of an event pass that follows the child's. A wheel event that
    /// nothing has dealt with scrolls the window. Unless a bar is being dragged, a
    /// request to bring a region into view is dealt with by moving the window as little
    /// as possible; a window that moved shows the bars and restarts the fade cycle.
    pub fn finish_event(&mut self, ctx: &mut EventCtx, event: &Event, env: &Env)
        ensures
            (final(self).scroll_component, final(self).clip.port, final(ctx)@) == after_content(
                old(self).scroll_component,
                old(self).clip.port,
                old(ctx)@,
                *event,
                *env,
            ),
            *final(self) == (Scroll {
                clip: ClipBox { port: final(self).clip.port, ..old(self).clip },
                scroll_component: final(self).scroll_component,
                ..*old(self)
            }),
    {
        self.scroll_component.handle_scroll(&mut self.clip.port, ctx, event, env);
        if !self.scroll_component.are_bars_held() {
            if let Event::ScrollToView(region) = event {
                ctx.set_handled();
                let changed = self.clip.port.default_scroll_to_view_handling(ctx, *region);
                if changed {
                    let request = self.scroll_component.reset_scrollbar_fade(env);
                    ctx.request_timer(request);
                }
            }
        }
    }

    /// Does the part of a layout that follows the child's. `old_content_size` and
    /// `old_view_size` are the sizes that content and window had before the layout, and
    /// `snap_vertical` and `snap_horizontal` are the answers of the snap rules.
    ///
    /// The window is brought back into range. A container whose size has changed shows
    /// its bars and restarts the fade cycle. Where a snap rule answers `true` and the
    /// content's size has changed, the window goes to the content's far edge on each
    /// axis whose rule answers `true`.
    pub fn settle(
        &mut self,
        ctx: &mut LayoutCtx,
        old_content_size: Size,
        old_view_size: Size,
        snap_vertical: bool,
        snap_horizontal: bool,
        env: &Env,
    )
        ensures
            (final(self).scroll_component, final(self).clip.port, final(ctx)@) == settled(
                old(self).scroll_component,
                old(self).clip.port,
                old(ctx)@,
                old_content_size,
                old_view_size,
                snap_vertical,
                snap_horizontal,
                *env,
            ),
            *final(self) == (Scroll {
                clip: ClipBox { port: final(self).clip.port, ..old(self).clip },
                scroll_component: final(self).scroll_component,
                ..*old(self)
            }),
    {
        let port = self.clip.viewport();
        let _ = self.clip.pan_by(ctx, Vec2::zero());
        if old_view_size != port.view_size {
            let request = self.scroll_component.reset_scrollbar_fade(env);
            ctx.request_timer(request);
        }
        if (snap_vertical || snap_horizontal) && port.content_size != old_content_size {
            let clamped = self.clip.viewport();
            let mut distance = Vec2::zero();
            if snap_vertical {
                distance.y = clamped.content_size.height as i64 - (clamped.view_origin.y as i64
                    + clamped.view_size.height as i64);
            }
            if snap_horizontal {
                distance.x = clamped.content_size.width as i64 - (clamped.view_origin.x as i64
                    + clamped.view_size.width as i64);
            }
            let _ = self.clip.pan_by(ctx, distance);
        }
    }
}

impl<T, W> Scroll<T, W> {
    /// What the scrollbars make of `event` when it is offered to them before the child
    /// sees it: their own state, the window and the context after that.
    pub open spec fn offered(self, ctx: EventCtxView, event: Event, env: Env) -> (
        ScrollComponent,
        Viewport,
        EventCtxView,
    ) {
        self.scroll_component.after_event(self.clip.port, ctx, event, env)
    }
}

impl<T, W: Widget<T>> Scroll<T, W> {
    /// `after` and `ctx` are what a layout with `bc` can leave of `self` and of the
    /// context `before`, and `size` is what it can return, if the child leaves the
    /// context as `mid` and the snap rules answer `snap_vertical` and `snap_horizontal`.
    ///
    /// The child is laid out within the constraints that the container's settings give
    /// it, with the context, the data and the settings as they are. The warnings that
    /// the size it reports gives rise to follow what it left in the context, and the
    /// part of the layout that follows the child's starts from there.
    pub open spec fn is_layout_outcome(
        self,
        before: LayoutCtxView,
        after: Self,
        ctx: LayoutCtxView,
        size: Size,
        bc: BoxConstraints,
        data: &T,
        env: Env,
        mid: LayoutCtxView,
        snap_vertical: bool,
        snap_horizontal: bool,
    ) -> bool {
        let reported = after.clip.old_size;
        let port = self.clip.laid_out(bc, reported);
        &&& self.clip.child.layout_leaves(
            before,
            self.clip.spec_child_constraints(&bc),
            data,
            env,
            &after.clip.child,
            mid,
            reported,
        )
        &&& self.scroll_snap_vertical.decides(data, &env, snap_vertical)
        &&& self.scroll_snap_horizontal.decides(data, &env, snap_horizontal)
        &&& (after.scroll_component, after.clip.port, ctx) == settled(
            self.scroll_component,
            port,
            mid.warned_all(
                size_warnings(
                    reported,
                    self.clip.constrain_horizontal,
                    self.clip.constrain_vertical,
                ),
            ),
            self.clip.port.content_size,
            self.clip.port.view_size,
            snap_vertical,
            snap_horizontal,
            env,
        )
        &&& size == port.view_size
    }

    /// `after`, `ctx_after` and `data_after` are what an event pass can leave when the
    /// scrollbars have left the event for the child: the child is handed the context as
    /// the bars left it and leaves it as `mid`, and the part of the pass that follows
    /// the child's starts from there.
    pub open spec fn event_passed_on(
        &self,
        ctx: EventCtxView,
        event: Event,
        data: &T,
        env: Env,
        after: &Self,
        ctx_after: EventCtxView,
        data_after: &T,
        mid: EventCtxView,
    ) -> bool {
        let offered = self.offered(ctx, event, env);
        &&& self.clip.child.event_leaves(
            offered.2,
            event,
            data,
            env,
            &after.clip.child,
            mid,
            data_after,
        )
        &&& (after.scroll_component, after.clip.port, ctx_after) == after_content(
            offered.0,
            offered.1,
            mid,
            event,
            env,
        )
    }
}

impl<T, W: Widget<T>> Widget<T> for Scroll<T, W> {
    /// An event pass offers the event to the scrollbars first. If they deal with it,
    /// the child and the data stay as they are; if not, the child is handed the event.
    /// Either way the part of the pass that follows the child's comes last, and
    /// nothing changes but the child, the window's origin and the bars.
    open spec fn event_leaves(
        &self,
        ctx: EventCtxView,
        event: Event,
        data: &T,
        env: Env,
        after: &Self,
        ctx_after: EventCtxView,
        data_after: &T,
    ) -> bool {
        let offered = self.offered(ctx, event, env);
        &&& *after == (Scroll {
            clip: ClipBox { child: after.clip.child, port: after.clip.port, ..self.clip },
            scroll_component: after.scroll_component,
            ..*self
        })
        &&& if offered.2.is_handled {
            &&& after.clip.child == self.clip.child
            &&& data_after == data
            &&& (after.scroll_component, after.clip.port, ctx_after) == after_content(
                offered.0,
                offered.1,
                offered.2,
                event,
                env,
            )
        } else {
            exists|mid: EventCtxView| #[trigger]
                self.event_passed_on(ctx, event, data, env, after, ctx_after, data_after, mid)
        }
    }

    /// A lifecycle pass tells the scrollbars first, which show themselves and ask for
    /// the timer of a new fade cycle when the size is new, and then the child. Nothing
    /// changes but the child and the bars.
    open spec fn lifecycle_leaves(
        &self,
        ctx: LifeCycleCtxView,
        event: LifeCycle,
        data: &T,
        env: Env,
        after: &Self,
        ctx_after: LifeCycleCtxView,
    ) -> bool {
        let resized = event is Size;
        &&& self.clip.child.lifecycle_leaves(
            if resized {
                ctx.timer(self.scroll_component.fade_timer(env))
            } else {
                ctx
            },
            event,
            data,
            env,
            &after.clip.child,
            ctx_after,
        )
        &&& *after == (Scroll {
            clip: ClipBox { child: after.clip.child, ..self.clip },
            scroll_component: if resized {
                self.scroll_component.restarted()
            } else {
                self.scroll_component
            },
            ..*self
        })
    }

    /// An update pass leaves of the container what it leaves of the child, and nothing
    /// else changed.
    open spec fn update_leaves(
        &self,
        ctx: UpdateCtx,
        old_data: &T,
        data: &T,
        env: Env,
        after: &Self,
        ctx_after: UpdateCtx,
    ) -> bool {
        &&& self.clip.child.update_leaves(ctx, old_data, data, env, &after.clip.child, ctx_after)
        &&& *after == (Scroll {
            clip: ClipBox { child: after.clip.child, ..self.clip },
            ..*self
        })
    }

    /// A layout pass lays out the child, takes the size that it reports, and settles
    /// window and bars. Nothing changes but the child, the window, the bars and the
    /// record of the child's layout.
    open spec fn layout_leaves(
        &self,
        ctx: LayoutCtxView,
        bc: BoxConstraints,
        data: &T,
        env: Env,
        after: &Self,
        ctx_after: LayoutCtxView,
        size: Size,
    ) -> bool {
        &&& *after == (Scroll {
            clip: ClipBox {
                child: after.clip.child,
                port: after.clip.port,
                old_bc: self.clip.spec_child_constraints(&bc),
                old_size: after.clip.old_size,
                ..self.clip
            },
            scroll_component: after.scroll_component,
            ..*self
        })
        &&& exists|mid: LayoutCtxView, snap_vertical: bool, snap_horizontal: bool| #[trigger]
            self.is_layout_outcome(
                ctx,
                *after,
                ctx_after,
                size,
                bc,
                data,
                env,
                mid,
                snap_vertical,
                snap_horizontal,
            )
    }

    /// A paint pass paints the child in the frame of the window, returns to the
    /// container's own frame, and paints the scrollbars on top. Nothing changes but
    /// the child.
    open spec fn paint_leaves(
        &self,
        painting: Seq<PaintOp>,
        data: &T,
        env: Env,
        after: &Self,
        painting_after: Seq<PaintOp>,
    ) -> bool {
        &&& *after == (Scroll {
            clip: ClipBox { child: after.clip.child, ..self.clip },
            ..*self
        })
        &&& exists|mid: Seq<PaintOp>| #[trigger]
            self.clip.child.paint_leaves(
                painting + self.clip.frame(),
                data,
                env,
                &after.clip.child,
                mid,
            ) && painting_after == mid.push(PaintOp::Restore) + self.scroll_component.painting(
                self.clip.port,
                env,
            )
    }

    /// The container describes itself as the parent of the box that clips its child.
    open spec fn describes(&self, data: &T, state: DebugState) -> bool {
        &&& state.display_name@ == "Scroll"@
        &&& state.children@.len() == 1
        &&& self.clip.describes(data, state.children@[0])
    }

    /// Offers the event to the scrollbars first, so that a drag of a bar comes before
    /// anything the child would do with the pointer. An event that the bars have dealt
    /// with does not reach the child; any other event is handed to the child with the
    /// context as the bars left it. After the child, the wheel scrolls the window and
    /// a request to bring a region into view is answered.
    fn event(&mut self, ctx: &mut EventCtx, event: &Event, data: &mut T, env: &Env)
        ensures
            *final(self) == (Scroll {
                clip: ClipBox {
                    child: final(self).clip.child,
                    port: final(self).clip.port,
                    ..old(self).clip
                },
                scroll_component: final(self).scroll_component,
                ..*old(self)
            }),
            old(self).offered(old(ctx)@, *event, *env).2.is_handled ==> ({
                &&& final(self).clip.child == old(self).clip.child
                &&& *final(data) == *old(data)
                &&& (final(self).scroll_component, final(self).clip.port, final(ctx)@)
                    == after_content(
                    old(self).offered(old(ctx)@, *event, *env).0,
                    old(self).offered(old(ctx)@, *event, *env).1,
                    old(self).offered(old(ctx)@, *event, *env).2,
                    *event,
                    *env,
                )
            }),
            !old(self).offered(old(ctx)@, *event, *env).2.is_handled ==> exists|
                mid: EventCtxView,
            | #[trigger]
                old(self).event_passed_on(
                    old(ctx)@,
                    *event,
                    &*old(data),
                    *env,
                    &*final(self),
                    final(ctx)@,
                    &*final(data),
                    mid,
                ),
    {
        let ghost offered = self.offered(ctx@, *event, *env);
        self.scroll_component.event(&mut self.clip.port, ctx, event, env);
        assert((self.scroll_component, self.clip.port, ctx@) == offered);
        if !ctx.is_handled() {
            self.clip.event(ctx, event, data, env);
        }
        let ghost mid = ctx@;
        assert(self.scroll_component == offered.0 && self.clip.port == offered.1);
        self.finish_event(ctx, event, env);
        proof {
            assert((final(self).scroll_component, final(self).clip.port, final(ctx)@)
                == after_content(offered.0, offered.1, mid, *event, *env));
            if !offered.2.is_handled {
                assert(old(self).event_passed_on(
                    old(ctx)@,
                    *event,
                    &*old(data),
                    *env,
                    &*final(self),
                    final(ctx)@,
                    &*final(data),
                    mid,
                ));
            }
        }
    }

    /// Tells the scrollbars and then the child of the change. A new size shows the
    /// bars and restarts the fade cycle; the child is handed the context with the
    /// timer of the new cycle in it.
    fn lifecycle(&mut self, ctx: &mut LifeCycleCtx, event: &LifeCycle, data: &T, env: &Env)
        ensures
            *final(self) == (Scroll {
                clip: ClipBox { child: final(self).clip.child, ..old(self).clip },
                scroll_component: if event is Size {
                    old(self).scroll_component.restarted()
                } else {
                    old(self).scroll_component
                },
                ..*old(self)
            }),
            old(self).clip.child.lifecycle_leaves(
                if event is Size {
                    old(ctx)@.timer(old(self).scroll_component.fade_timer(*env))
                } else {
                    old(ctx)@
                },
                *event,
                data,
                *env,
                &final(self).clip.child,
                final(ctx)@,
            ),
    {
        self.scroll_component.lifecycle(ctx, event, env);
        self.clip.lifecycle(ctx, event, data, env);
    }

    /// Hands the change of the data to the child, with the context and the settings as
    /// they are, and takes what the child leaves of them. Window and bars stay as they
    /// are.
    fn update(&mut self, ctx: &mut UpdateCtx, old_data: &T, data: &T, env: &Env)
        ensures
            old(self).clip.child.update_leaves(
                *old(ctx),
                old_data,
                data,
                *env,
                &final(self).clip.child,
                *final(ctx),
            ),
            *final(self) == (Scroll {
                clip: ClipBox { child: final(self).clip.child, ..old(self).clip },
                ..*old(self)
            }),
    {
        self.clip.update(ctx, old_data, data, env);
    }

    /// Lays out the child within the constraints that the container's settings give
    /// it, takes the size it reports, brings the window back into
    /// range, shows the bars if the container's size has changed, and snaps to the
    /// content's far edge where a snap rule says so and the content's size has
    /// changed. Returns the container's size, which `bc` allows for the content
    /// whatever the content's size.
    fn layout(
        &mut self,
        ctx: &mut LayoutCtx,
        bc: &BoxConstraints,
        data: &T,
        env: &Env,
    ) -> (size: Size)
        ensures
            *final(self) == (Scroll {
                clip: ClipBox {
                    child: final(self).clip.child,
                    port: final(self).clip.port,
                    old_bc: old(self).clip.spec_child_constraints(bc),
                    old_size: final(self).clip.old_size,
                    ..old(self).clip
                },
                scroll_component: final(self).scroll_component,
                ..*old(self)
            }),
            exists|mid: LayoutCtxView, snap_vertical: bool, snap_horizontal: bool| #[trigger]
                old(self).is_layout_outcome(
                    old(ctx)@,
                    *final(self),
                    final(ctx)@,
                    size,
                    *bc,
                    data,
                    *env,
                    mid,
                    snap_vertical,
                    snap_horizontal,
                ),
            final(self).clip.port.in_range(),
            old(self).clip.constrain_horizontal ==> final(self).clip.port.view_origin.x == 0,
            old(self).clip.constrain_vertical ==> final(self).clip.port.view_origin.y == 0,
    {
        let old_content_size = self.clip.viewport().content_size;
        let old_view_size = self.clip.viewport().view_size;
        let size = self.clip.layout(ctx, bc, data, env);
        let ghost clip = self.clip;
        let ghost warned = ctx@;
        let ghost mid = choose|mid: LayoutCtxView|
            old(self).clip.layout_passed_on(old(ctx)@, *bc, data, *env, &clip, warned, size, mid);
        let snap_vertical = self.scroll_snap_vertical.eval(data, env);
        let snap_horizontal = self.scroll_snap_horizontal.eval(data, env);
        self.settle(ctx, old_content_size, old_view_size, snap_vertical, snap_horizontal, env);
        proof {
            assert(old(self).clip.layout_passed_on(
                old(ctx)@,
                *bc,
                data,
                *env,
                &clip,
                warned,
                size,
                mid,
            ));
            assert(old(self).is_layout_outcome(
                old(ctx)@,
                *final(self),
                final(ctx)@,
                size,
                *bc,
                data,
                *env,
                mid,
                snap_vertical,
                snap_horizontal,
            ));
        }
        size
    }

    /// Paints the child through the window, and the scrollbars on top of it: the child
    /// is handed the painting so far with the window's frame set up after it, what the
    /// child leaves is closed by a `Restore`, and the bars follow in the container's
    /// own frame.
    fn paint(&mut self, ctx: &mut PaintCtx, data: &T, env: &Env)
        ensures
            *final(self) == (Scroll {
                clip: ClipBox { child: final(self).clip.child, ..old(self).clip },
                ..*old(self)
            }),
            exists|mid: Seq<PaintOp>| #[trigger]
                old(self).clip.child.paint_leaves(
                    old(ctx)@ + old(self).clip.frame(),
                    data,
                    *env,
                    &final(self).clip.child,
                    mid,
                ) && final(ctx)@ == mid.push(PaintOp::Restore)
                    + old(self).scroll_component.painting(old(self).clip.port, *env),
    {
        self.clip.paint(ctx, data, env);
        let ghost child = self.clip.child;
        let ghost clipped = ctx@;
        let ghost mid = choose|mid: Seq<PaintOp>| #[trigger]
            old(self).clip.child.paint_leaves(
                old(ctx)@ + old(self).clip.frame(),
                data,
                *env,
                &child,
                mid,
            ) && clipped == mid.push(PaintOp::Restore);
        self.scroll_component.draw_bars(ctx, &self.clip.viewport(), env);
        proof {
            assert(old(self).clip.child.paint_leaves(
                old(ctx)@ + old(self).clip.frame(),
                data,
                *env,
                &final(self).clip.child,
                mid,
            ) && final(ctx)@ == mid.push(PaintOp::Restore)
                + old(self).scroll_component.painting(old(self).clip.port, *env));
        }
    }

    /// Describes the container as the parent of the box that clips its child.
    fn debug_state(&self, data: &T) -> (state: DebugState)
        ensures
            state.display_name@ == "Scroll"@,
            state.children@.len() == 1,
            state.children@[0].display_name@ == "ClipBox"@,
            state.children@[0].children@.len() == 1,
            self.clip.child.describes(data, state.children@[0].children@[0]),
    {
        DebugState::parent("Scroll", self.clip.debug_state(data))
    }
}

/// A snap takes the window to the far end of its range on each axis that is to snap.
/// On the other axis the window stays where it is, if it is in range there.
pub proof fn lemma_snap_reaches_far_edge(
    port: Viewport,
    snap_vertical: bool,
    snap_horizontal: bool,
)
    ensures
        ({
            let snapped = port.panned_by(snap_distance(port, snap_vertical, snap_horizontal));
            &&& snap_vertical ==> snapped.view_origin.y == port.max_origin(Axis::Vertical)
            &&& snap_horizontal ==> snapped.view_origin.x == port.max_origin(Axis::Horizontal)
            &&& !snap_vertical && port.in_range() ==> snapped.view_origin.y
                == port.view_origin.y
            &&& !snap_horizontal && port.in_range() ==> snapped.view_origin.x
                == port.view_origin.x
        }),
{
}

/// A request to bring a region into view that moves the window restarts the fade cycle
/// and asks for its timer, and so does a layout that changes the container's size.
pub proof fn lemma_moves_and_resizes_restart_fade(
    bars: ScrollComponent,
    port: Viewport,
    ctx: EventCtxView,
    event: Event,
    layout_ctx: LayoutCtxView,
    old_content_size: Size,
    old_view_size: Size,
    snap_vertical: bool,
    snap_horizontal: bool,
    env: Env,
)
    ensures
        ({
            let after = after_content(bars, port, ctx, event, env);
            after.1.view_origin != port.view_origin ==> after.0 == bars.restarted()
                && after.2.timers == ctx.timers.push(bars.fade_timer(env))
        }),
        ({
            let after = settled(
                bars,
                port,
                layout_ctx,
                old_content_size,
                old_view_size,
                snap_vertical,
                snap_horizontal,
                env,
            );
            &&& old_view_size != port.view_size ==> after.0 == bars.restarted()
                && after.2.timers == layout_ctx.timers.push(bars.fade_timer(env))
            &&& old_view_size == port.view_size ==> after.0 == bars && after.2.timers
                == layout_ctx.timers
            &&& after.1.in_range()
        }),
{
}

} // verus!
