//! The interface between a container and the widget it holds.

use vstd::prelude::*;
use crate::constraints::BoxConstraints;
use crate::context::{
    EventCtx,
    EventCtxView,
    LayoutCtx,
    LayoutCtxView,
    LifeCycleCtx,
    LifeCycleCtxView,
    PaintCtx,
    PaintOp,
    UpdateCtx,
};
use crate::debug_state::DebugState;
use crate::env::Env;
use crate::event::{Event, LifeCycle};
use crate::geometry::Size;

verus! {

/// A node of the widget tree over application data of type `T`.
///
/// A container relies on nothing of what its child does in a pass: whatever the child
/// leaves in the context, in the data and in itself is taken as it comes. For each pass
/// a widget has a relation that says what the pass can leave behind, so that a
/// container can say what it handed to its child and what it took back. A widget that
/// does not say otherwise admits every outcome.
pub trait Widget<T> {
    /// `after`, `ctx_after` and `data_after` are what an event pass can leave of this
    /// widget, of the context `ctx` and of the data `data`, when the event is `event`
    /// and the settings are `env`.
    open spec fn event_leaves(
        &self,
        ctx: EventCtxView,
        event: Event,
        data: &T,
        env: Env,
        after: &Self,
        ctx_after: EventCtxView,
        data_after: &T,
    ) -> bool {
        true
    }

    /// `after` and `ctx_after` are what a lifecycle pass can leave of this widget and
    /// of the context `ctx`, when the change is `event`, the data are `data` and the
    /// settings are `env`.
    open spec fn lifecycle_leaves(
        &self,
        ctx: LifeCycleCtxView,
        event: LifeCycle,
        data: &T,
        env: Env,
        after: &Self,
        ctx_after: LifeCycleCtxView,
    ) -> bool {
        true
    }

    /// `after` and `ctx_after` are what an update pass can leave of this widget and of
    /// the context `ctx`, when the data have changed from `old_data` to `data` and the
    /// settings are `env`.
    open spec fn update_leaves(
        &self,
        ctx: UpdateCtx,
        old_data: &T,
        data: &T,
        env: Env,
        after: &Self,
        ctx_after: UpdateCtx,
    ) -> bool {
        true
    }

    /// `after` and `ctx_after` are what a layout pass can leave of this widget and of the
    /// context `ctx`, and `size` is what the widget can report, when it is laid out
    /// within `bc` and the data are `data` and the settings `env`.
    open spec fn layout_leaves(
        &self,
        ctx: LayoutCtxView,
        bc: BoxConstraints,
        data: &T,
        env: Env,
        after: &Self,
        ctx_after: LayoutCtxView,
        size: Size,
    ) -> bool {
        true
    }

    /// `after` and `painting_after` are what a paint pass can leave of this widget and of
    /// the painting `painting`, when the data are `data` and the settings `env`.
    open spec fn paint_leaves(
        &self,
        painting: Seq<PaintOp>,
        data: &T,
        env: Env,
        after: &Self,
        painting_after: Seq<PaintOp>,
    ) -> bool {
        true
    }

    /// `state` is a description that this widget can give of itself when the data are
    /// `data`.
    open spec fn describes(&self, data: &T, state: DebugState) -> bool {
        true
    }

    /// Deals with an input event.
    fn event(&mut self, ctx: &mut EventCtx, event: &Event, data: &mut T, env: &Env)
        ensures
            old(self).event_leaves(
                old(ctx)@,
                *event,
                &*old(data),
                *env,
                &*final(self),
                final(ctx)@,
                &*final(data),
            ),
    ;

    /// Takes note of a change in the widget's circumstances.
    fn lifecycle(&mut self, ctx: &mut LifeCycleCtx, event: &LifeCycle, data: &T, env: &Env)
        ensures
            old(self).lifecycle_leaves(
                old(ctx)@,
                *event,
                data,
                *env,
                &*final(self),
                final(ctx)@,
            ),
    ;

    /// Takes note of a change of the data.
    fn update(&mut self, ctx: &mut UpdateCtx, old_data: &T, data: &T, env: &Env)
        ensures
            old(self).update_leaves(*old(ctx), old_data, data, *env, &*final(self), *final(ctx)),
    ;

    /// Chooses a size within `bc`.
    fn layout(
        &mut self,
        ctx: &mut LayoutCtx,
        bc: &BoxConstraints,
        data: &T,
        env: &Env,
    ) -> (size: Size)
        ensures
            old(self).layout_leaves(
                old(ctx)@,
                *bc,
                data,
                *env,
                &*final(self),
                final(ctx)@,
                size,
            ),
    ;

    /// Paints the widget.
    fn paint(&mut self, ctx: &mut PaintCtx, data: &T, env: &Env)
        ensures
            old(self).paint_leaves(old(ctx)@, data, *env, &*final(self), final(ctx)@),
    ;

    /// Describes the widget and the widgets below it.
    fn debug_state(&self, data: &T) -> (state: DebugState)
        ensures
            self.describes(data, state),
    ;
}

} // verus!
