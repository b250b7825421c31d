//! What a widget may ask of its surroundings during a pass over the widget tree.
//!
//! Each pass hands the widget a context by mutable reference. A context records the
//! requests made during the pass; whoever runs the pass acts on them afterwards.

use vstd::prelude::*;
use crate::geometry::{Point, Rect, Vec2};

verus! {

/// A request to be woken after `delay` milliseconds by a timer event that carries
/// `token`.
#[derive(Clone, Copy, Debug, PartialEq, Eq, Structural)]
pub struct TimerRequest {
    pub delay: u64,
    pub token: u64,
}

/// Something noteworthy about a child's reported size. It does not stop the layout.
#[derive(Clone, Copy, Debug, PartialEq, Eq, Structural)]
pub enum LayoutWarning {
    /// The child reported an unbounded width on an axis that leaves it free.
    InfiniteWidth,
    /// The child reported an unbounded height on an axis that leaves it free.
    InfiniteHeight,
}

/// One step of a painting.
#[derive(Clone, Copy, Debug, PartialEq, Eq, Structural)]
pub enum PaintOp {
    /// Remember the coordinate frame and the clip region.
    Save,
    /// Move the coordinate frame by a displacement.
    Translate(Vec2),
    /// Restrict drawing to a region of the current frame.
    Clip(Rect),
    /// Return to the frame and clip region of the matching `Save`.
    Restore,
    /// Fill a region of the current frame with a colour at an opacity.
    Fill { rect: Rect, color: u32, opacity: u8 },
}

/// A context through which a widget can report that what it shows has moved.
pub trait ChangeCtx: Sized {
    /// This context once a move has been reported to it.
    spec fn moved(self) -> Self;

    /// Reports that what the widget shows has moved.
    fn view_context_changed(&mut self)
        ensures
            *final(self) == old(self).moved(),
    ;
}

/// The context of an event pass.
pub struct EventCtx {
    /// The event has been dealt with; widgets that come later leave it alone.
    pub is_handled: bool,
    /// The widget wants to receive pointer events wherever the pointer goes.
    pub is_active: bool,
    pub paint_requested: bool,
    pub anim_frame_requested: bool,
    pub view_context_changed: bool,
    /// Where the widget's top-left corner lies in the window.
    pub window_origin: Point,
    /// The timers asked for, oldest first.
    pub timers: Vec<TimerRequest>,
}

/// What an [`EventCtx`] holds.
pub struct EventCtxView {
    pub is_handled: bool,
    pub is_active: bool,
    pub paint_requested: bool,
    pub anim_frame_requested: bool,
    pub view_context_changed: bool,
    pub window_origin: Point,
    pub timers: Seq<TimerRequest>,
}

impl EventCtxView {
    pub open spec fn handled(self) -> EventCtxView {
        EventCtxView { is_handled: true, ..self }
    }

    pub open spec fn active(self, active: bool) -> EventCtxView {
        EventCtxView { is_active: active, ..self }
    }

    pub open spec fn paint(self) -> EventCtxView {
        EventCtxView { paint_requested: true, ..self }
    }

    pub open spec fn anim_frame(self) -> EventCtxView {
        EventCtxView { anim_frame_requested: true, ..self }
    }

    pub open spec fn timer(self, request: TimerRequest) -> EventCtxView {
        EventCtxView { timers: self.timers.push(request), ..self }
    }
}

impl View for EventCtx {
    type V = EventCtxView;

    open spec fn view(&self) -> EventCtxView {
        EventCtxView {
            is_handled: self.is_handled,
            is_active: self.is_active,
            paint_requested: self.paint_requested,
            anim_frame_requested: self.anim_frame_requested,
            view_context_changed: self.view_context_changed,
            window_origin: self.window_origin,
            timers: self.timers@,
        }
    }
}

impl EventCtx {
    /// A context in which nothing has been asked for yet.
    pub fn new(window_origin: Point) -> (ctx: EventCtx)
        ensures
            ctx@ == (EventCtxView {
                is_handled: false,
                is_active: false,
                paint_requested: false,
                anim_frame_requested: false,
                view_context_changed: false,
                window_origin,
                timers: Seq::empty(),
            }),
    {
        EventCtx {
            is_handled: false,
            is_active: false,
            paint_requested: false,
            anim_frame_requested: false,
            view_context_changed: false,
            window_origin,
            timers: Vec::new(),
        }
    }

    pub fn is_handled(&self) -> (handled: bool)
        ensures
            handled == self.is_handled,
    {
        self.is_handled
    }

    pub fn set_handled(&mut self)
        ensures
            final(self)@ == old(self)@.handled(),
    {
        self.is_handled = true;
    }

    pub fn set_active(&mut self, active: bool)
        ensures
            final(self)@ == old(self)@.active(active),
    {
        self.is_active = active;
    }

    pub fn request_paint(&mut self)
        ensures
            final(self)@ == old(self)@.paint(),
    {
        self.paint_requested = true;
    }

    pub fn request_anim_frame(&mut self)
        ensures
            final(self)@ == old(self)@.anim_frame(),
    {
        self.anim_frame_requested = true;
    }

    pub fn request_timer(&mut self, request: TimerRequest)
        ensures
            final(self)@ == old(self)@.timer(request),
    {
        self.timers.push(request);
    }

    pub fn window_origin(&self) -> (origin: Point)
        ensures
            origin == self.window_origin,
    {
        self.window_origin
    }
}

impl ChangeCtx for EventCtx {
    open spec fn moved(self) -> EventCtx {
        EventCtx { view_context_changed: true, ..self }
    }

    fn view_context_changed(&mut self) {
        self.view_context_changed = true;
    }
}

/// The context of a lifecycle pass.
pub struct LifeCycleCtx {
    pub view_context_changed: bool,
    /// The timers asked for, oldest first.
    pub timers: Vec<TimerRequest>,
}

/// What a [`LifeCycleCtx`] holds.
pub struct LifeCycleCtxView {
    pub view_context_changed: bool,
    pub timers: Seq<TimerRequest>,
}

impl LifeCycleCtxView {
    pub open spec fn timer(self, request: TimerRequest) -> LifeCycleCtxView {
        LifeCycleCtxView { timers: self.timers.push(request), ..self }
    }
}

impl View for LifeCycleCtx {
    type V = LifeCycleCtxView;

    open spec fn view(&self) -> LifeCycleCtxView {
        LifeCycleCtxView {
            view_context_changed: self.view_context_changed,
            timers: self.timers@,
        }
    }
}

impl LifeCycleCtx {
    /// A context in which nothing has been asked for yet.
    pub fn new() -> (ctx: LifeCycleCtx)
        ensures
            ctx@ == (LifeCycleCtxView { view_context_changed: false, timers: Seq::empty() }),
    {
        LifeCycleCtx { view_context_changed: false, timers: Vec::new() }
    }

    pub fn request_timer(&mut self, request: TimerRequest)
        ensures
            final(self)@ == old(self)@.timer(request),
    {
        self.timers.push(request);
    }
}

impl ChangeCtx for LifeCycleCtx {
    open spec fn moved(self) -> LifeCycleCtx {
        LifeCycleCtx { view_context_changed: true, ..self }
    }

    fn view_context_changed(&mut self) {
        self.view_context_changed = true;
    }
}

/// The context of an update pass.
#[derive(Clone, Copy, Debug, PartialEq, Eq, Structural)]
pub struct UpdateCtx {
    pub view_context_changed: bool,
}

impl UpdateCtx {
    /// A context in which nothing has been asked for yet.
    pub fn new() -> (ctx: UpdateCtx)
        ensures
            ctx == (UpdateCtx { view_context_changed: false }),
    {
        UpdateCtx { view_context_changed: false }
    }
}

impl ChangeCtx for UpdateCtx {
    open spec fn moved(self) -> UpdateCtx {
        UpdateCtx { view_context_changed: true }
    }

    fn view_context_changed(&mut self) {
        self.view_context_changed = true;
    }
}

/// The context of a layout pass.
pub struct LayoutCtx {
    pub view_context_changed: bool,
    /// The timers asked for, oldest first.
    pub timers: Vec<TimerRequest>,
    /// The warnings raised, oldest first.
    pub warnings: Vec<LayoutWarning>,
}

/// What a [`LayoutCtx`] holds.
pub struct LayoutCtxView {
    pub view_context_changed: bool,
    pub timers: Seq<TimerRequest>,
    pub warnings: Seq<LayoutWarning>,
}

impl LayoutCtxView {
    pub open spec fn moved(self) -> LayoutCtxView {
        LayoutCtxView { view_context_changed: true, ..self }
    }

    pub open spec fn timer(self, request: TimerRequest) -> LayoutCtxView {
        LayoutCtxView { timers: self.timers.push(request), ..self }
    }

    pub open spec fn warned(self, warning: LayoutWarning) -> LayoutCtxView {
        LayoutCtxView { warnings: self.warnings.push(warning), ..self }
    }

    pub open spec fn warned_all(self, warnings: Seq<LayoutWarning>) -> LayoutCtxView {
        LayoutCtxView { warnings: self.warnings + warnings, ..self }
    }
}

impl View for LayoutCtx {
    type V = LayoutCtxView;

    open spec fn view(&self) -> LayoutCtxView {
        LayoutCtxView {
            view_context_changed: self.view_context_changed,
            timers: self.timers@,
            warnings: self.warnings@,
        }
    }
}

impl LayoutCtx {
    /// A context in which nothing has been asked for yet.
    pub fn new() -> (ctx: LayoutCtx)
        ensures
            ctx@ == (LayoutCtxView {
                view_context_changed: false,
                timers: Seq::empty(),
                warnings: Seq::empty(),
            }),
    {
        LayoutCtx { view_context_changed: false, timers: Vec::new(), warnings: Vec::new() }
    }

    pub fn request_timer(&mut self, request: TimerRequest)
        ensures
            final(self)@ == old(self)@.timer(request),
    {
        self.timers.push(request);
    }

    pub fn warn(&mut self, warning: LayoutWarning)
        ensures
            final(self)@ == old(self)@.warned(warning),
    {
        self.warnings.push(warning);
    }
}

impl ChangeCtx for LayoutCtx {
    open spec fn moved(self) -> LayoutCtx {
        LayoutCtx { view_context_changed: true, ..self }
    }

    fn view_context_changed(&mut self) {
        self.view_context_changed = true;
    }
}

/// The context of a paint pass: the painting made so far.
pub struct PaintCtx {
    /// The steps of the painting, in the order in which they were made.
    pub ops: Vec<PaintOp>,
}

impl View for PaintCtx {
    type V = Seq<PaintOp>;

    open spec fn view(&self) -> Seq<PaintOp> {
        self.ops@
    }
}

impl PaintCtx {
    /// A context in which nothing has been painted yet.
    pub fn new() -> (ctx: PaintCtx)
        ensures
            ctx@ == Seq::<PaintOp>::empty(),
    {
        PaintCtx { ops: Vec::new() }
    }

    pub fn push(&mut self, op: PaintOp)
        ensures
            final(self)@ == old(self)@.push(op),
    {
        self.ops.push(op);
    }
}

} // verus!
