//! A container that shows its child through a window.

use vstd::prelude::*;
use crate::constraints::BoxConstraints;
use crate::debug_state::DebugState;
use crate::context::{
    ChangeCtx,
    EventCtx,
    EventCtxView,
    LayoutCtx,
    LayoutCtxView,
    LayoutWarning,
    LifeCycleCtx,
    LifeCycleCtxView,
    PaintCtx,
    PaintOp,
    UpdateCtx,
};
use crate::env::Env;
use crate::event::{Event, LifeCycle};
use crate::geometry::{Axis, Offset, Rect, Size, Vec2, UNBOUNDED};
use crate::viewport::Viewport;
use crate::widget::Widget;

verus! {

/// The warnings that a child's reported size gives rise to: one for each axis on which
/// the size is unbounded although the axis leaves the child free.
pub open spec fn size_warnings(
    size: Size,
    constrain_horizontal: bool,
    constrain_vertical: bool,
) -> Seq<LayoutWarning> {
    let width = if size.width == UNBOUNDED && !constrain_horizontal {
        seq![LayoutWarning::InfiniteWidth]
    } else {
        Seq::empty()
    };
    let height = if size.height == UNBOUNDED && !constrain_vertical {
        seq![LayoutWarning::InfiniteHeight]
    } else {
        Seq::empty()
    };
    width + height
}

/// Raises the warnings that a child's reported size gives rise to. The size stays in
/// use as it is.
pub fn log_size_warnings(
    ctx: &mut LayoutCtx,
    size: Size,
    constrain_horizontal: bool,
    constrain_vertical: bool,
)
    ensures
        final(ctx)@ == old(ctx)@.warned_all(
            size_warnings(size, constrain_horizontal, constrain_vertical),
        ),
{
    if size.width == UNBOUNDED && !constrain_horizontal {
        ctx.warn(LayoutWarning::InfiniteWidth);
    }
    if size.height == UNBOUNDED && !constrain_vertical {
        ctx.warn(LayoutWarning::InfiniteHeight);
    }
    proof {
        assert(final(ctx)@.warnings =~= old(ctx)@.warnings + size_warnings(
            size,
            constrain_horizontal,
            constrain_vertical,
        ));
    }
}

/// A container that holds one child and shows the part of it that lies in a window.
///
/// Along an axis that is constrained the child may not grow beyond the container;
/// along the other axes it may take whatever size it wants.
pub struct ClipBox<W> {
    pub child: W,
    pub port: Viewport,
    pub constrain_horizontal: bool,
    pub constrain_vertical: bool,
    pub must_fill: bool,
    /// The constraints that the child was last laid out with.
    pub old_bc: BoxConstraints,
    /// The size that the child last reported.
    pub old_size: Size,
}

impl<W> ClipBox<W> {
    /// A container around `child` whose window another widget moves. The child is free
    /// on both axes and need not fill the container; nothing has been laid out yet.
    pub open spec fn spec_managed(child: W) -> ClipBox<W> {
        ClipBox {
            child,
            port: Viewport::spec_new(
                Size { width: 0, height: 0 },
                Size { width: 0, height: 0 },
            ),
            constrain_horizontal: false,
            constrain_vertical: false,
            must_fill: false,
            old_bc: BoxConstraints {
                min: Size { width: 0, height: 0 },
                max: Size { width: 0, height: 0 },
            },
            old_size: Size { width: 0, height: 0 },
        }
    }

    /// A container around `child` whose window another widget moves. The child is free
    /// on both axes and need not fill the container; nothing has been laid out yet.
    #[verifier::when_used_as_spec(spec_managed)]
    pub fn managed(child: W) -> (clip: ClipBox<W>)
        ensures
            clip == ClipBox::spec_managed(child),
    {
        ClipBox {
            child,
            port: Viewport::new(Size::zero(), Size::zero()),
            constrain_horizontal: false,
            constrain_vertical: false,
            must_fill: false,
            old_bc: BoxConstraints::tight(Size::zero()),
            old_size: Size::zero(),
        }
    }

    /// Sets whether the child may grow beyond the container horizontally (`false`) or
    /// not (`true`).
    pub fn set_constrain_horizontal(&mut self, constrain: bool)
        ensures
            *final(self) == (ClipBox { constrain_horizontal: constrain, ..*old(self) }),
    {
        self.constrain_horizontal = constrain;
    }

    /// Sets whether the child may grow beyond the container vertically (`false`) or not
    /// (`true`).
    pub fn set_constrain_vertical(&mut self, constrain: bool)
        ensures
            *final(self) == (ClipBox { constrain_vertical: constrain, ..*old(self) }),
    {
        self.constrain_vertical = constrain;
    }

    /// Sets whether the child must be at least as large as the smallest size that the
    /// container itself may take.
    pub fn set_content_must_fill(&mut self, must_fill: bool)
        ensures
            *final(self) == (ClipBox { must_fill, ..*old(self) }),
    {
        self.must_fill = must_fill;
    }

    pub fn child(&self) -> (child: &W)
        ensures
            *child == self.child,
    {
        &self.child
    }

    pub fn child_mut(&mut self) -> (child: &mut W)
        ensures
            *child == old(self).child,
            *final(self) == (ClipBox { child: *final(child), ..*old(self) }),
    {
        &mut self.child
    }

    pub fn viewport(&self) -> (port: Viewport)
        ensures
            port == self.port,
    {
        self.port
    }

    pub fn viewport_origin(&self) -> (origin: Offset)
        ensures
            origin == self.port.view_origin,
    {
        self.port.view_origin
    }

    pub fn content_size(&self) -> (size: Size)
        ensures
            size == self.port.content_size,
    {
        self.port.content_size
    }

    /// The constraints that the child is laid out with when the container is laid out
    /// with `bc`.
    ///
    /// Along a constrained axis the child may be as large as the container may be at
    /// most; along any other axis it has no upper bound. A child that must fill may
    /// not be smaller than the container may be at least; any other child may be as
    /// small as it wants.
    pub open spec fn spec_child_constraints(&self, bc: &BoxConstraints) -> BoxConstraints {
        BoxConstraints {
            min: if self.must_fill {
                bc.min
            } else {
                Size { width: 0, height: 0 }
            },
            max: Size {
                width: if self.constrain_horizontal {
                    bc.max.width
                } else {
                    UNBOUNDED
                },
                height: if self.constrain_vertical {
                    bc.max.height
                } else {
                    UNBOUNDED
                },
            },
        }
    }

    /// The constraints that the child is laid out with when the container is laid out
    /// with `bc`.
    #[verifier::when_used_as_spec(spec_child_constraints)]
    pub fn child_constraints(&self, bc: &BoxConstraints) -> (child_bc: BoxConstraints)
        ensures
            child_bc == self.spec_child_constraints(bc),
    {
        BoxConstraints {
            min: if self.must_fill {
                bc.min
            } else {
                Size { width: 0, height: 0 }
            },
            max: Size {
                width: if self.constrain_horizontal {
                    bc.max.width
                } else {
                    UNBOUNDED
                },
                height: if self.constrain_vertical {
                    bc.max.height
                } else {
                    UNBOUNDED
                },
            },
        }
    }

    /// The window after a layout with `bc` in which the child reported the size
    /// `reported`.
    ///
    /// The content has the reported size, held to the constraints that the child was
    /// given. The window has the size that `bc` allows the container for that content:
    /// the content may be larger than the window. The window's origin stays where it is.
    pub open spec fn laid_out(self, bc: BoxConstraints, reported: Size) -> Viewport {
        let content_size = self.spec_child_constraints(&bc).spec_constrain(reported);
        Viewport {
            content_size,
            view_size: bc.spec_constrain(content_size),
            view_origin: self.port.view_origin,
        }
    }

    /// Takes the size that the child reported in a layout with `bc`: warns of unbounded
    /// dimensions on unconstrained axes, and sets the sizes of content and window.
    /// Returns the container's own size, which is the window's: the size that `bc`
    /// allows for what the child reported.
    pub fn record_layout(
        &mut self,
        ctx: &mut LayoutCtx,
        bc: &BoxConstraints,
        reported: Size,
    ) -> (size: Size)
        ensures
            *final(self) == (ClipBox {
                port: old(self).laid_out(*bc, reported),
                old_bc: old(self).spec_child_constraints(bc),
                old_size: reported,
                ..*old(self)
            }),
            final(ctx)@ == old(ctx)@.warned_all(
                size_warnings(
                    reported,
                    old(self).constrain_horizontal,
                    old(self).constrain_vertical,
                ),
            ),
            size == final(self).port.view_size,
            size == bc.spec_constrain(reported),
    {
        log_size_warnings(ctx, reported, self.constrain_horizontal, self.constrain_vertical);
        let child_bc = self.child_constraints(bc);
        let content_size = child_bc.constrain(reported);
        self.old_bc = child_bc;
        self.old_size = reported;
        self.port.content_size = content_size;
        self.port.view_size = bc.constrain(content_size);
        self.port.view_size
    }

    /// Moves the window by `delta`, as far as its range allows, and reports a move to
    /// `ctx`. Tells whether the window moved.
    pub fn pan_by<C: ChangeCtx>(&mut self, ctx: &mut C, delta: Vec2) -> (changed: bool)
        ensures
            *final(self) == (ClipBox { port: old(self).port.panned_by(delta), ..*old(self) }),
            changed == (final(self).port.view_origin != old(self).port.view_origin),
            *final(ctx) == if changed {
                old(ctx).moved()
            } else {
                *old(ctx)
            },
    {
        let changed = self.port.pan_by(delta);
        if changed {
            ctx.view_context_changed();
        }
        changed
    }

    /// Moves the window as little as possible to show `region`, as far as its range
    /// allows, and reports a move to `ctx`. Tells whether the window moved.
    pub fn pan_to_visible<C: ChangeCtx>(&mut self, ctx: &mut C, region: Rect) -> (changed: bool)
        ensures
            *final(self) == (ClipBox {
                port: old(self).port.revealing(
                    region.x0 as int,
                    region.y0 as int,
                    region.x1 as int,
                    region.y1 as int,
                ),
                ..*old(self)
            }),
            changed == (final(self).port.view_origin != old(self).port.view_origin),
            *final(ctx) == if changed {
                old(ctx).moved()
            } else {
                *old(ctx)
            },
    {
        let changed = self.port.pan_to_visible(region);
        if changed {
            ctx.view_context_changed();
        }
        changed
    }

    /// Moves the window to `position` along `axis`, as far as its range allows, and
    /// reports a move to `ctx`. Tells whether the window moved.
    pub fn pan_to_on_axis<C: ChangeCtx>(
        &mut self,
        ctx: &mut C,
        axis: Axis,
        position: i64,
    ) -> (changed: bool)
        ensures
            *final(self) == (ClipBox {
                port: match axis {
                    Axis::Horizontal => old(self).port.panned_to(
                        position as int,
                        old(self).port.view_origin.y as int,
                    ),
                    Axis::Vertical => old(self).port.panned_to(
                        old(self).port.view_origin.x as int,
                        position as int,
                    ),
                },
                ..*old(self)
            }),
            changed == (final(self).port.view_origin != old(self).port.view_origin),
            *final(ctx) == if changed {
                old(ctx).moved()
            } else {
                *old(ctx)
            },
    {
        let changed = self.port.pan_to_on_axis(axis, position);
        if changed {
            ctx.view_context_changed();
        }
        changed
    }

    /// The steps that set up the child's frame: the frame is saved, moved so that the
    /// window's origin comes to lie at the container's top-left corner, and drawing is
    /// restricted to the window.
    pub open spec fn frame(self) -> Seq<PaintOp> {
        seq![
            PaintOp::Save,
            PaintOp::Translate(
                Vec2 {
                    x: (-self.port.view_origin.x) as i64,
                    y: (-self.port.view_origin.y) as i64,
                },
            ),
            PaintOp::Clip(self.port.spec_view_rect()),
        ]
    }

    /// Sets up the frame in which the child paints.
    pub fn begin_paint(&self, ctx: &mut PaintCtx)
        ensures
            final(ctx)@ == old(ctx)@ + self.frame(),
    {
        ctx.push(PaintOp::Save);
        ctx.push(
            PaintOp::Translate(
                Vec2 { x: -(self.port.view_origin.x as i64), y: -(self.port.view_origin.y as i64) },
            ),
        );
        ctx.push(PaintOp::Clip(self.port.view_rect()));
        proof {
            assert(final(ctx)@ =~= old(ctx)@ + self.frame());
        }
    }

    /// Returns to the container's own frame.
    pub fn end_paint(&self, ctx: &mut PaintCtx)
        ensures
            final(ctx)@ == old(ctx)@.push(PaintOp::Restore),
    {
        ctx.push(PaintOp::Restore);
    }
}

impl<W> ClipBox<W> {
    /// `after`, `ctx_after` and `size` are what a layout with `bc` can leave of the
    /// container and of the context `ctx`, and what it can return, if the child leaves
    /// the context as `mid`.
    ///
    /// The child is laid out within the constraints that the container's settings give
    /// it, with the context, the data and the settings as they are. The size that it
    /// reports is taken as [`ClipBox::record_layout`] takes it: the warnings that the
    /// size gives rise to follow what the child left in the context.
    pub open spec fn layout_passed_on<T>(
        &self,
        ctx: LayoutCtxView,
        bc: BoxConstraints,
        data: &T,
        env: Env,
        after: &Self,
        ctx_after: LayoutCtxView,
        size: Size,
        mid: LayoutCtxView,
    ) -> bool where W: Widget<T> {
        &&& self.child.layout_leaves(
            ctx,
            self.spec_child_constraints(&bc),
            data,
            env,
            &after.child,
            mid,
            after.old_size,
        )
        &&& ctx_after == mid.warned_all(
            size_warnings(after.old_size, self.constrain_horizontal, self.constrain_vertical),
        )
        &&& *after == (ClipBox {
            child: after.child,
            port: self.laid_out(bc, after.old_size),
            old_bc: self.spec_child_constraints(&bc),
            old_size: after.old_size,
            ..*self
        })
        &&& size == after.port.view_size
    }
}

impl<T, W: Widget<T>> Widget<T> for ClipBox<W> {
    /// An event pass leaves of the container what it leaves of the child, and nothing
    /// else changed.
    open spec fn event_leaves(
        &self,
        ctx: EventCtxView,
        event: Event,
        data: &T,
        env: Env,
        after: &Self,
        ctx_after: EventCtxView,
        data_after: &T,
    ) -> bool {
        &&& self.child.event_leaves(ctx, event, data, env, &after.child, ctx_after, data_after)
        &&& *after == (ClipBox { child: after.child, ..*self })
    }

    /// A lifecycle pass leaves of the container what it leaves of the child, and
    /// nothing else changed.
    open spec fn lifecycle_leaves(
        &self,
        ctx: LifeCycleCtxView,
        event: LifeCycle,
        data: &T,
        env: Env,
        after: &Self,
        ctx_after: LifeCycleCtxView,
    ) -> bool {
        &&& self.child.lifecycle_leaves(ctx, event, data, env, &after.child, ctx_after)
        &&& *after == (ClipBox { child: after.child, ..*self })
    }

    /// An update pass leaves of the container what it leaves of the child, and nothing
    /// else changed.
    open spec fn update_leaves(
        &self,
        ctx: UpdateCtx,
        old_data: &T,
        data: &T,
        env: Env,
        after: &Self,
        ctx_after: UpdateCtx,
    ) -> bool {
        &&& self.child.update_leaves(ctx, old_data, data, env, &after.child, ctx_after)
        &&& *after == (ClipBox { child: after.child, ..*self })
    }

    /// A layout pass lays out the child within the constraints that the container's
    /// settings give it, and takes the size that the child reports.
    open spec fn layout_leaves(
        &self,
        ctx: LayoutCtxView,
        bc: BoxConstraints,
        data: &T,
        env: Env,
        after: &Self,
        ctx_after: LayoutCtxView,
        size: Size,
    ) -> bool {
        exists|mid: LayoutCtxView| #[trigger]
            self.layout_passed_on(ctx, bc, data, env, after, ctx_after, size, mid)
    }

    /// A paint pass paints the child in the frame of the window and returns to the
    /// container's own frame. Nothing changes but the child.
    open spec fn paint_leaves(
        &self,
        painting: Seq<PaintOp>,
        data: &T,
        env: Env,
        after: &Self,
        painting_after: Seq<PaintOp>,
    ) -> bool {
        &&& *after == (ClipBox { child: after.child, ..*self })
        &&& exists|mid: Seq<PaintOp>| #[trigger]
            self.child.paint_leaves(painting + self.frame(), data, env, &after.child, mid)
                && painting_after == mid.push(PaintOp::Restore)
    }

    /// The container describes itself as the parent of its child.
    open spec fn describes(&self, data: &T, state: DebugState) -> bool {
        &&& state.display_name@ == "ClipBox"@
        &&& state.children@.len() == 1
        &&& self.child.describes(data, state.children@[0])
    }

    /// Hands the event to the child, with the context, the data and the settings as
    /// they are, and takes what the child leaves of them.
    fn event(&mut self, ctx: &mut EventCtx, event: &Event, data: &mut T, env: &Env)
        ensures
            old(self).child.event_leaves(
                old(ctx)@,
                *event,
                &*old(data),
                *env,
                &final(self).child,
                final(ctx)@,
                &*final(data),
            ),
            *final(self) == (ClipBox { child: final(self).child, ..*old(self) }),
    {
        self.child.event(ctx, event, data, env);
    }

    /// Hands the change to the child, with the context, the data and the settings as
    /// they are, and takes what the child leaves of them.
    fn lifecycle(&mut self, ctx: &mut LifeCycleCtx, event: &LifeCycle, data: &T, env: &Env)
        ensures
            old(self).child.lifecycle_leaves(
                old(ctx)@,
                *event,
                data,
                *env,
                &final(self).child,
                final(ctx)@,
            ),
            *final(self) == (ClipBox { child: final(self).child, ..*old(self) }),
    {
        self.child.lifecycle(ctx, event, data, env);
    }

    /// Hands the change of the data to the child, with the context and the settings as
    /// they are, and takes what the child leaves of them.
    fn update(&mut self, ctx: &mut UpdateCtx, old_data: &T, data: &T, env: &Env)
        ensures
            old(self).child.update_leaves(
                *old(ctx),
                old_data,
                data,
                *env,
                &final(self).child,
                *final(ctx),
            ),
            *final(self) == (ClipBox { child: final(self).child, ..*old(self) }),
    {
        self.child.update(ctx, old_data, data, env);
    }

    /// Lays out the child within the constraints that this container's settings give
    /// it, with the context, the data and the settings as they are, and takes the size
    /// that the child reports. Whatever the child reports, the window has the size that
    /// `bc` allows for it, and the warnings that the reported size gives rise to follow
    /// what the child left in the context.
    fn layout(
        &mut self,
        ctx: &mut LayoutCtx,
        bc: &BoxConstraints,
        data: &T,
        env: &Env,
    ) -> (size: Size)
        ensures
            *final(self) == (ClipBox {
                child: final(self).child,
                port: old(self).laid_out(*bc, final(self).old_size),
                old_bc: old(self).spec_child_constraints(bc),
                old_size: final(self).old_size,
                ..*old(self)
            }),
            exists|mid: LayoutCtxView| #[trigger]
                old(self).layout_passed_on(
                    old(ctx)@,
                    *bc,
                    data,
                    *env,
                    &*final(self),
                    final(ctx)@,
                    size,
                    mid,
                ),
            size == final(self).port.view_size,
            size == bc.spec_constrain(final(self).old_size),
    {
        let child_bc = self.child_constraints(bc);
        let reported = self.child.layout(ctx, &child_bc, data, env);
        let ghost mid = ctx@;
        let size = self.record_layout(ctx, bc, reported);
        proof {
            assert(old(self).layout_passed_on(
                old(ctx)@,
                *bc,
                data,
                *env,
                &*final(self),
                final(ctx)@,
                size,
                mid,
            ));
        }
        size
    }

    /// Paints the child in a frame in which the window's origin lies at the container's
    /// top-left corner and nothing outside the window is drawn, and returns to the
    /// container's own frame: the child is handed the painting so far with the window's
    /// frame set up after it, and what the child leaves is closed by a `Restore`.
    fn paint(&mut self, ctx: &mut PaintCtx, data: &T, env: &Env)
        ensures
            *final(self) == (ClipBox { child: final(self).child, ..*old(self) }),
            exists|mid: Seq<PaintOp>| #[trigger]
                old(self).child.paint_leaves(
                    old(ctx)@ + old(self).frame(),
                    data,
                    *env,
                    &final(self).child,
                    mid,
                ) && final(ctx)@ == mid.push(PaintOp::Restore),
    {
        self.begin_paint(ctx);
        self.child.paint(ctx, data, env);
        let ghost mid = ctx@;
        self.end_paint(ctx);
        proof {
            assert(old(self).child.paint_leaves(
                old(ctx)@ + old(self).frame(),
                data,
                *env,
                &final(self).child,
                mid,
            ) && final(ctx)@ == mid.push(PaintOp::Restore));
        }
    }

    /// Describes the container as the parent of its child.
    fn debug_state(&self, data: &T) -> (state: DebugState)
        ensures
            state.display_name@ == "ClipBox"@,
            state.children@.len() == 1,
            self.child.describes(data, state.children@[0]),
    {
        DebugState::parent("ClipBox", self.child.debug_state(data))
    }
}

} // verus!
