//! Scrollbars: where they lie, when they show, and how pointer and wheel input moves
//! the window through them.

use vstd::prelude::*;
use crate::arith::{
    ceil_div,
    lemma_ceil_div_of_share,
    scale_ceil,
    scale_floor,
    scale_signed_ceil,
};
use crate::context::{EventCtx, EventCtxView, LifeCycleCtx, PaintCtx, PaintOp, TimerRequest};
use crate::env::Env;
use crate::event::{Event, LifeCycle};
use crate::geometry::{Axis, Point, Rect, UNBOUNDED};
use crate::viewport::{clamp_to_range, scroll_range, scroll_range_of, Viewport};

verus! {

/// Which scrollbars are drawn and react to the pointer. The wheel scrolls the window
/// whatever this says.
#[derive(Clone, Copy, Debug, PartialEq, Eq, Structural)]
pub enum ScrollbarsEnabled {
    Neither,
    Horizontal,
    Vertical,
    Both,
}

/// The scrollbar that the pointer is over.
#[derive(Clone, Copy, Debug, PartialEq, Eq, Structural)]
pub enum BarHoveredState {
    Neither,
    Vertical,
    Horizontal,
}

/// The scrollbar that the pointer drags. A dragged bar remembers where along its axis
/// the pointer went down and where the window's origin was at that moment.
#[derive(Clone, Copy, Debug, PartialEq, Eq, Structural)]
pub enum BarHeldState {
    Neither,
    Vertical { pointer: i64, origin: u32 },
    Horizontal { pointer: i64, origin: u32 },
}

/// How far the scrollbars have faded.
#[derive(Clone, Copy, Debug, PartialEq, Eq, Structural)]
pub enum FadeState {
    /// The bars are not shown.
    Hidden,
    /// The bars are fully shown.
    Steady,
    /// The bars are fading away and will be gone after this many nanoseconds.
    FadingOut(u64),
}

/// The state of a window's scrollbars.
#[derive(Clone, Copy, Debug, PartialEq, Eq, Structural)]
pub struct ScrollComponent {
    /// How far the bars have faded.
    pub fade: FadeState,
    /// The number of the current fade cycle. Only the timer that carries this number
    /// may start the fade.
    pub generation: u64,
    pub hovered: BarHoveredState,
    pub held: BarHeldState,
    pub enabled: ScrollbarsEnabled,
}

impl ScrollbarsEnabled {
    /// The bar along `axis` is enabled.
    pub open spec fn spec_is_enabled(self, axis: Axis) -> bool {
        match (self, axis) {
            (ScrollbarsEnabled::Both, _) => true,
            (ScrollbarsEnabled::Horizontal, Axis::Horizontal) => true,
            (ScrollbarsEnabled::Vertical, Axis::Vertical) => true,
            _ => false,
        }
    }

    /// The bar along `axis` is enabled.
    #[verifier::when_used_as_spec(spec_is_enabled)]
    pub fn is_enabled(self, axis: Axis) -> (enabled: bool)
        ensures
            enabled == self.spec_is_enabled(axis),
    {
        match (self, axis) {
            (ScrollbarsEnabled::Both, _) => true,
            (ScrollbarsEnabled::Horizontal, Axis::Horizontal) => true,
            (ScrollbarsEnabled::Vertical, Axis::Vertical) => true,
            _ => false,
        }
    }

    /// No bar is enabled.
    pub fn is_none(self) -> (neither: bool)
        ensures
            neither == (self == ScrollbarsEnabled::Neither),
    {
        match self {
            ScrollbarsEnabled::Neither => true,
            _ => false,
        }
    }

    /// The setting under which the bar along each axis is enabled as the argument for
    /// that axis says.
    pub open spec fn of(horizontal: bool, vertical: bool) -> ScrollbarsEnabled {
        if horizontal && vertical {
            ScrollbarsEnabled::Both
        } else if horizontal {
            ScrollbarsEnabled::Horizontal
        } else if vertical {
            ScrollbarsEnabled::Vertical
        } else {
            ScrollbarsEnabled::Neither
        }
    }

    /// Enables or disables the vertical bar and leaves the horizontal bar as it is.
    pub fn set_vertical_scrollbar_enabled(&mut self, enabled: bool)
        ensures
            *final(self) == ScrollbarsEnabled::of(
                old(self).spec_is_enabled(Axis::Horizontal),
                enabled,
            ),
    {
        let horizontal = self.is_enabled(Axis::Horizontal);
        *self = pick(horizontal, enabled);
    }

    /// Enables or disables the horizontal bar and leaves the vertical bar as it is.
    pub fn set_horizontal_scrollbar_enabled(&mut self, enabled: bool)
        ensures
            *final(self) == ScrollbarsEnabled::of(
                enabled,
                old(self).spec_is_enabled(Axis::Vertical),
            ),
    {
        let vertical = self.is_enabled(Axis::Vertical);
        *self = pick(enabled, vertical);
    }
}

fn pick(horizontal: bool, vertical: bool) -> (enabled: ScrollbarsEnabled)
    ensures
        enabled == ScrollbarsEnabled::of(horizontal, vertical),
{
    if horizontal && vertical {
        ScrollbarsEnabled::Both
    } else if horizontal {
        ScrollbarsEnabled::Horizontal
    } else if vertical {
        ScrollbarsEnabled::Vertical
    } else {
        ScrollbarsEnabled::Neither
    }
}

/// The number of the fade cycle that follows cycle `generation`.
pub open spec fn next_generation(generation: u64) -> u64 {
    if generation == u64::MAX {
        0
    } else {
        (generation + 1) as u64
    }
}

/// The room that a bar leaves free along its axis: the gap at either end and, where
/// both bars are enabled, the corner in which they would meet.
pub open spec fn bar_padding(enabled: ScrollbarsEnabled, env: Env) -> int {
    if enabled == ScrollbarsEnabled::Both {
        2 * env.scrollbar_pad + env.scrollbar_width
    } else {
        2 * env.scrollbar_pad
    }
}

/// The length of the bar along an axis on which the content exceeds the window.
///
/// The bar takes the share of the window that the window takes of the content, but not
/// less than the configured minimum, and not more than the room there is. Unbounded
/// content leaves the bar no share at all.
pub open spec fn bar_length(content: u32, view: u32, enabled: ScrollbarsEnabled, env: Env) -> int {
    let natural = if content == UNBOUNDED {
        0
    } else {
        ceil_div(view * view, content as int)
    };
    let wanted = if natural < env.scrollbar_min_size {
        env.scrollbar_min_size as int
    } else {
        natural
    };
    let room = view - bar_padding(enabled, env);
    if wanted > room {
        room
    } else {
        wanted
    }
}

/// Where the bar starts along an axis on which the content exceeds the window.
///
/// The bar has travelled the share of its way that the window has travelled of its
/// range.
pub open spec fn bar_start(
    content: u32,
    view: u32,
    origin: u32,
    enabled: ScrollbarsEnabled,
    env: Env,
) -> int {
    let range = scroll_range(content, view);
    let travel = view - bar_padding(enabled, env) - bar_length(content, view, enabled, env);
    let done = if origin > range {
        range
    } else {
        origin as int
    };
    if range == 0 {
        env.scrollbar_pad as int
    } else {
        env.scrollbar_pad + ceil_div(travel * done, range)
    }
}

/// The track of the bar along `axis`: the strip along the far edge of the window, as
/// long as the window, that reaches from the bar's near side to the window's edge. It is
/// given relative to the window's top-left corner.
pub open spec fn track(axis: Axis, port: Viewport, env: Env) -> Rect {
    let across = axis.spec_minor(port.view_size);
    Rect::spec_spanning(
        axis,
        0,
        axis.spec_major(port.view_size) as i64,
        (across - env.scrollbar_width - env.scrollbar_pad) as i64,
        across as i64,
    )
}

fn track_of(axis: Axis, port: &Viewport, env: &Env) -> (strip: Rect)
    ensures
        strip == track(axis, *port, *env),
{
    let across = axis.minor(port.view_size) as i64;
    Rect::spanning(
        axis,
        0,
        axis.major(port.view_size) as i64,
        across - env.scrollbar_width as i64 - env.scrollbar_pad as i64,
        across,
    )
}

impl ScrollComponent {
    /// Scrollbars that are hidden, idle and both enabled.
    pub open spec fn spec_new() -> ScrollComponent {
        ScrollComponent {
            fade: FadeState::Hidden,
            generation: 0,
            hovered: BarHoveredState::Neither,
            held: BarHeldState::Neither,
            enabled: ScrollbarsEnabled::Both,
        }
    }

    /// Scrollbars that are hidden, idle and both enabled.
    #[verifier::when_used_as_spec(spec_new)]
    pub fn new() -> (bars: ScrollComponent)
        ensures
            bars == ScrollComponent::spec_new(),
    {
        ScrollComponent {
            fade: FadeState::Hidden,
            generation: 0,
            hovered: BarHoveredState::Neither,
            held: BarHeldState::Neither,
            enabled: ScrollbarsEnabled::Both,
        }
    }

    /// The pointer is dragging one of the bars.
    pub open spec fn spec_are_bars_held(&self) -> bool {
        self.held != BarHeldState::Neither
    }

    /// The pointer is dragging one of the bars.
    #[verifier::when_used_as_spec(spec_are_bars_held)]
    pub fn are_bars_held(&self) -> (held: bool)
        ensures
            held == self.spec_are_bars_held(),
    {
        match self.held {
            BarHeldState::Neither => false,
            _ => true,
        }
    }

    /// These bars at the start of a new fade cycle: fully shown, and deaf to the timers
    /// of earlier cycles.
    pub open spec fn restarted(self) -> ScrollComponent {
        ScrollComponent {
            fade: FadeState::Steady,
            generation: next_generation(self.generation),
            ..self
        }
    }

    /// These bars after so many restarts of the fade cycle.
    pub open spec fn restarted_times(self, times: nat) -> ScrollComponent
        decreases times,
    {
        if times == 0 {
            self
        } else {
            self.restarted_times((times - 1) as nat).restarted()
        }
    }

    /// The timer that ends the steady part of the fade cycle that follows the current
    /// one.
    pub open spec fn fade_timer(self, env: Env) -> TimerRequest {
        TimerRequest { delay: env.scrollbar_fade_delay, token: next_generation(self.generation) }
    }

    /// Shows the bars fully and starts a new fade cycle. Returns the timer that the
    /// caller is to request; when it fires, and nothing has restarted the cycle by then,
    /// the bars start to fade.
    pub fn reset_scrollbar_fade(&mut self, env: &Env) -> (request: TimerRequest)
        ensures
            *final(self) == old(self).restarted(),
            request == old(self).fade_timer(*env),
            request.token == final(self).generation,
            final(self).generation != old(self).generation,
    {
        self.fade = FadeState::Steady;
        self.generation = if self.generation == u64::MAX {
            0
        } else {
            self.generation + 1
        };
        TimerRequest { delay: env.scrollbar_fade_delay, token: self.generation }
    }

    /// How opaque the bars are: fully while steady, not at all while hidden, and in
    /// between in proportion to the time that is left of the fade.
    pub open spec fn spec_opacity(&self, env: &Env) -> u8 {
        match self.fade {
            FadeState::Hidden => 0,
            FadeState::Steady => env.scrollbar_max_opacity,
            FadeState::FadingOut(remaining) => if env.scrollbar_fade_time == 0 {
                0
            } else if remaining >= env.scrollbar_fade_time {
                env.scrollbar_max_opacity
            } else {
                ((env.scrollbar_max_opacity * remaining) / (env.scrollbar_fade_time as int)) as u8
            },
        }
    }

    /// How opaque the bars are: fully while steady, not at all while hidden, and in
    /// between in proportion to the time that is left of the fade.
    #[verifier::when_used_as_spec(spec_opacity)]
    pub fn opacity(&self, env: &Env) -> (opacity: u8)
        ensures
            opacity == self.spec_opacity(env),
            opacity <= env.scrollbar_max_opacity,
    {
        match self.fade {
            FadeState::Hidden => 0,
            FadeState::Steady => env.scrollbar_max_opacity,
            FadeState::FadingOut(remaining) => {
                if env.scrollbar_fade_time == 0 {
                    0
                } else if remaining >= env.scrollbar_fade_time {
                    env.scrollbar_max_opacity
                } else {
                    scale_floor(
                        env.scrollbar_max_opacity as u64,
                        remaining,
                        env.scrollbar_fade_time,
                    ) as u8
                }
            },
        }
    }

    /// Where the bar along `axis` lies, relative to the window's top-left corner. There
    /// is no bar where the content does not exceed the window, nor where there is no
    /// room for one.
    pub open spec fn bar_bounds(self, axis: Axis, port: Viewport, env: Env) -> Option<Rect> {
        let content = axis.spec_major(port.content_size);
        let view = axis.spec_major(port.view_size);
        let across = axis.spec_minor(port.view_size);
        let length = bar_length(content, view, self.enabled, env);
        let start = bar_start(
            content,
            view,
            axis.spec_major_offset(port.view_origin),
            self.enabled,
            env,
        );
        if content <= view || length <= 0 || env.scrollbar_width == 0 {
            None
        } else {
            Some(
                Rect::spec_spanning(
                    axis,
                    start as i64,
                    (start + length) as i64,
                    (across - env.scrollbar_width - env.scrollbar_pad) as i64,
                    (across - env.scrollbar_pad) as i64,
                ),
            )
        }
    }

    /// Where the bar along `axis` lies, relative to the window's top-left corner.
    pub fn calc_bar_bounds(&self, axis: Axis, port: &Viewport, env: &Env) -> (bounds: Option<Rect>)
        ensures
            bounds == self.bar_bounds(axis, *port, *env),
    {
        let content = axis.major(port.content_size);
        let view = axis.major(port.view_size);
        let across = axis.minor(port.view_size);
        let origin = axis.major_offset(port.view_origin);
        if content <= view || env.scrollbar_width == 0 {
            return None;
        }
        let padding: i64 = match self.enabled {
            ScrollbarsEnabled::Both => 2 * env.scrollbar_pad as i64 + env.scrollbar_width as i64,
            _ => 2 * env.scrollbar_pad as i64,
        };
        let natural: u64 = if content == UNBOUNDED {
            0
        } else {
            scale_ceil(view as u64, view as u64, content as u64)
        };
        let wanted: i64 = if natural < env.scrollbar_min_size as u64 {
            env.scrollbar_min_size as i64
        } else {
            natural as i64
        };
        let room: i64 = view as i64 - padding;
        let length: i64 = if wanted > room {
            room
        } else {
            wanted
        };
        if length <= 0 {
            return None;
        }
        let range = scroll_range_of(content, view);
        let travel: i64 = room - length;
        let done: u32 = if origin > range {
            range
        } else {
            origin
        };
        let start: i64 = if range == 0 {
            env.scrollbar_pad as i64
        } else {
            env.scrollbar_pad as i64 + scale_ceil(travel as u64, done as u64, range as u64) as i64
        };
        let cross_near: i64 = across as i64 - env.scrollbar_width as i64 - env.scrollbar_pad as i64;
        let cross_far: i64 = across as i64 - env.scrollbar_pad as i64;
        Some(Rect::spanning(axis, start, start + length, cross_near, cross_far))
    }

    /// Where the vertical bar lies.
    pub fn calc_vertical_bar_bounds(&self, port: &Viewport, env: &Env) -> (bounds: Option<Rect>)
        ensures
            bounds == self.bar_bounds(Axis::Vertical, *port, *env),
    {
        self.calc_bar_bounds(Axis::Vertical, port, env)
    }

    /// Where the horizontal bar lies.
    pub fn calc_horizontal_bar_bounds(&self, port: &Viewport, env: &Env) -> (bounds: Option<Rect>)
        ensures
            bounds == self.bar_bounds(Axis::Horizontal, *port, *env),
    {
        self.calc_bar_bounds(Axis::Horizontal, port, env)
    }

    /// The state of the bar along `axis`: hidden where the bar is disabled or does not
    /// exist, and as far faded as the bars are everywhere else.
    pub open spec fn spec_bar_state(&self, axis: Axis, port: &Viewport, env: &Env) -> FadeState {
        if self.enabled.spec_is_enabled(axis) && self.bar_bounds(axis, *port, *env) is Some {
            self.fade
        } else {
            FadeState::Hidden
        }
    }

    /// The state of the bar along `axis`: hidden where the bar is disabled or does not
    /// exist, and as far faded as the bars are everywhere else.
    #[verifier::when_used_as_spec(spec_bar_state)]
    pub fn bar_state(&self, axis: Axis, port: &Viewport, env: &Env) -> (state: FadeState)
        ensures
            state == self.spec_bar_state(axis, port, env),
    {
        if self.enabled.is_enabled(axis) && self.calc_bar_bounds(axis, port, env).is_some() {
            self.fade
        } else {
            FadeState::Hidden
        }
    }

    /// `pos` can take hold of the bar along `axis`: the bar is enabled, it exists, and
    /// `pos` lies in its track.
    pub open spec fn hits_bar(self, axis: Axis, port: Viewport, pos: Point, env: Env) -> bool {
        &&& self.enabled.spec_is_enabled(axis)
        &&& self.bar_bounds(axis, port, env) is Some
        &&& track(axis, port, env).spec_contains(pos)
    }

    /// Tells whether `pos` can take hold of the bar along `axis`.
    pub fn point_hits_bar(&self, axis: Axis, port: &Viewport, pos: Point, env: &Env) -> (hit: bool)
        ensures
            hit == self.hits_bar(axis, *port, pos, *env),
    {
        if !self.enabled.is_enabled(axis) {
            return false;
        }
        if self.calc_bar_bounds(axis, port, env).is_none() {
            return false;
        }
        track_of(axis, port, env).contains(pos)
    }

    /// Tells whether `pos` can take hold of the vertical bar.
    pub fn point_hits_vertical_bar(&self, port: &Viewport, pos: Point, env: &Env) -> (hit: bool)
        ensures
            hit == self.hits_bar(Axis::Vertical, *port, pos, *env),
    {
        self.point_hits_bar(Axis::Vertical, port, pos, env)
    }

    /// Tells whether `pos` can take hold of the horizontal bar.
    pub fn point_hits_horizontal_bar(&self, port: &Viewport, pos: Point, env: &Env) -> (hit: bool)
        ensures
            hit == self.hits_bar(Axis::Horizontal, *port, pos, *env),
    {
        self.point_hits_bar(Axis::Horizontal, port, pos, env)
    }

    /// The bar whose track `pos` lies in; the vertical bar where it lies in both.
    pub open spec fn bar_at(self, port: Viewport, pos: Point, env: Env) -> BarHoveredState {
        if self.hits_bar(Axis::Vertical, port, pos, env) {
            BarHoveredState::Vertical
        } else if self.hits_bar(Axis::Horizontal, port, pos, env) {
            BarHoveredState::Horizontal
        } else {
            BarHoveredState::Neither
        }
    }

    fn find_bar(&self, port: &Viewport, pos: Point, env: &Env) -> (bar: BarHoveredState)
        ensures
            bar == self.bar_at(*port, pos, *env),
    {
        if self.point_hits_vertical_bar(port, pos, env) {
            BarHoveredState::Vertical
        } else if self.point_hits_horizontal_bar(port, pos, env) {
            BarHoveredState::Horizontal
        } else {
            BarHoveredState::Neither
        }
    }

    /// Where a drag along `axis` takes the window's origin on that axis, before it is
    /// held to the window's range: as far from where it was when the pointer went down
    /// as the pointer is from where it went down, enlarged by the ratio of the content
    /// to the window and rounded up.
    pub open spec fn drag_target(
        axis: Axis,
        port: Viewport,
        pointer: i64,
        origin: u32,
        pos: Point,
    ) -> int {
        let view = axis.spec_major(port.view_size);
        let content = axis.spec_major(port.content_size);
        if view == 0 {
            origin as int
        } else {
            origin + ceil_div((axis.spec_major_pos(pos) - pointer) * content, view as int)
        }
    }

    /// The window after a drag to `pos` of the bar that is held.
    pub open spec fn dragged(self, port: Viewport, pos: Point) -> Viewport {
        match self.held {
            BarHeldState::Neither => port,
            BarHeldState::Vertical { pointer, origin } => port.panned_to(
                port.view_origin.x as int,
                Self::drag_target(Axis::Vertical, port, pointer, origin, pos),
            ),
            BarHeldState::Horizontal { pointer, origin } => port.panned_to(
                Self::drag_target(Axis::Horizontal, port, pointer, origin, pos),
                port.view_origin.y as int,
            ),
        }
    }

    /// The outcome of a pointer move to `pos` while a bar is held: the window follows
    /// the pointer, the event is dealt with, and a window that moved restarts the fade
    /// cycle.
    pub open spec fn after_drag(self, port: Viewport, ctx: EventCtxView, pos: Point, env: Env) -> (
        ScrollComponent,
        Viewport,
        EventCtxView,
    ) {
        let moved = self.dragged(port, pos);
        if moved.view_origin != port.view_origin {
            (self.restarted(), moved, ctx.handled().paint().timer(self.fade_timer(env)))
        } else {
            (self, moved, ctx.handled().paint())
        }
    }

    /// The outcome of a pointer release at `pos` while a bar is held: the drag ends,
    /// the fade cycle restarts, and the event is dealt with.
    pub open spec fn after_release(
        self,
        port: Viewport,
        ctx: EventCtxView,
        pos: Point,
        env: Env,
    ) -> (ScrollComponent, Viewport, EventCtxView) {
        let idle = ScrollComponent {
            held: BarHeldState::Neither,
            hovered: self.bar_at(port, pos, env),
            ..self
        };
        (idle.restarted(), port, ctx.active(false).timer(self.fade_timer(env)).handled())
    }

    /// The outcome of a pointer press at `pos` while no bar is held: a press in the
    /// track of a bar takes hold of that bar and is dealt with; any other press goes
    /// by.
    pub open spec fn after_press(self, port: Viewport, ctx: EventCtxView, pos: Point, env: Env) -> (
        ScrollComponent,
        Viewport,
        EventCtxView,
    ) {
        match self.bar_at(port, pos, env) {
            BarHoveredState::Vertical => (
                ScrollComponent {
                    held: BarHeldState::Vertical { pointer: pos.y, origin: port.view_origin.y },
                    ..self
                },
                port,
                ctx.active(true).handled(),
            ),
            BarHoveredState::Horizontal => (
                ScrollComponent {
                    held: BarHeldState::Horizontal { pointer: pos.x, origin: port.view_origin.x },
                    ..self
                },
                port,
                ctx.active(true).handled(),
            ),
            BarHoveredState::Neither => (self, port, ctx),
        }
    }

    /// The outcome of a pointer move to `pos` while no bar is held: over a bar's track
    /// the bars are fully shown and the event is dealt with; a pointer that leaves the
    /// tracks restarts the fade cycle.
    pub open spec fn after_hover(self, port: Viewport, ctx: EventCtxView, pos: Point, env: Env) -> (
        ScrollComponent,
        Viewport,
        EventCtxView,
    ) {
        let over = self.bar_at(port, pos, env);
        if over != BarHoveredState::Neither {
            (
                ScrollComponent { hovered: over, fade: FadeState::Steady, ..self },
                port,
                ctx.paint().handled(),
            )
        } else if self.hovered != BarHoveredState::Neither {
            (
                ScrollComponent { hovered: BarHoveredState::Neither, ..self }.restarted(),
                port,
                ctx.timer(self.fade_timer(env)),
            )
        } else {
            (self, port, ctx)
        }
    }

    /// The timer with `token` is the one that may start the fade: it belongs to the
    /// current fade cycle, the bars are fully shown, and the pointer is not over them.
    pub open spec fn timer_is_due(self, token: u64) -> bool {
        &&& token == self.generation
        &&& self.fade == FadeState::Steady
        &&& self.hovered == BarHoveredState::Neither
    }

    /// The outcome of a timer firing while no bar is held: the timer that is due starts
    /// the fade and is dealt with; any other timer goes by.
    pub open spec fn after_timer(self, port: Viewport, ctx: EventCtxView, token: u64, env: Env) -> (
        ScrollComponent,
        Viewport,
        EventCtxView,
    ) {
        if !self.timer_is_due(token) {
            (self, port, ctx)
        } else if env.scrollbar_fade_time == 0 {
            (ScrollComponent { fade: FadeState::Hidden, ..self }, port, ctx.paint().handled())
        } else {
            (
                ScrollComponent { fade: FadeState::FadingOut(env.scrollbar_fade_time), ..self },
                port,
                ctx.anim_frame().handled(),
            )
        }
    }

    /// The outcome of an animation frame while no bar is held: bars that are fading
    /// fade on by the time that has passed, and are hidden once no time is left.
    pub open spec fn after_anim_frame(self, port: Viewport, ctx: EventCtxView, elapsed: u64) -> (
        ScrollComponent,
        Viewport,
        EventCtxView,
    ) {
        match self.fade {
            FadeState::FadingOut(remaining) => if elapsed >= remaining {
                (ScrollComponent { fade: FadeState::Hidden, ..self }, port, ctx.paint())
            } else {
                (
                    ScrollComponent {
                        fade: FadeState::FadingOut((remaining - elapsed) as u64),
                        ..self
                    },
                    port,
                    ctx.anim_frame().paint(),
                )
            },
            _ => (self, port, ctx),
        }
    }

    /// The outcome of offering `event` to the bars before anything else sees it.
    pub open spec fn after_event(
        self,
        port: Viewport,
        ctx: EventCtxView,
        event: Event,
        env: Env,
    ) -> (
        ScrollComponent,
        Viewport,
        EventCtxView,
    ) {
        if self.spec_are_bars_held() {
            match event {
                Event::MouseMove(pos) => self.after_drag(port, ctx, pos, env),
                Event::MouseUp(pos) => self.after_release(port, ctx, pos, env),
                _ => (self, port, ctx),
            }
        } else {
            match event {
                Event::MouseMove(pos) => self.after_hover(port, ctx, pos, env),
                Event::MouseDown(pos) => self.after_press(port, ctx, pos, env),
                Event::Timer(token) => self.after_timer(port, ctx, token, env),
                Event::AnimFrame(elapsed) => self.after_anim_frame(port, ctx, elapsed),
                _ => (self, port, ctx),
            }
        }
    }

    /// The outcome of offering `event` to the bars once the content has seen it: a
    /// wheel event that nothing has dealt with moves the window; if the window does
    /// move, the event is dealt with and the fade cycle restarts.
    pub open spec fn after_scroll(
        self,
        port: Viewport,
        ctx: EventCtxView,
        event: Event,
        env: Env,
    ) -> (
        ScrollComponent,
        Viewport,
        EventCtxView,
    ) {
        match event {
            Event::Wheel(delta) => if !ctx.is_handled && port.panned_by(delta).view_origin
                != port.view_origin {
                (
                    self.restarted(),
                    port.panned_by(delta),
                    ctx.paint().handled().timer(self.fade_timer(env)),
                )
            } else {
                (self, port, ctx)
            },
            _ => (self, port, ctx),
        }
    }

    fn drag_target_of(
        axis: Axis,
        port: &Viewport,
        pointer: i64,
        origin: u32,
        pos: Point,
    ) -> (target: i128)
        ensures
            target == Self::drag_target(axis, *port, pointer, origin, pos),
            -0x8_0000_0000_0000_0000_0000_0000 <= target <= 0x8_0000_0000_0000_0000_0000_0000,
    {
        let view = axis.major(port.view_size);
        let content = axis.major(port.content_size);
        if view == 0 {
            origin as i128
        } else {
            let distance = axis.major_pos(pos) as i128 - pointer as i128;
            origin as i128 + scale_signed_ceil(distance, content, view)
        }
    }

    fn drag(&mut self, port: &mut Viewport, ctx: &mut EventCtx, pos: Point, env: &Env)
        ensures
            (*final(self), *final(port), final(ctx)@) == old(self).after_drag(
                *old(port),
                old(ctx)@,
                pos,
                *env,
            ),
    {
        let changed = match self.held {
            BarHeldState::Neither => false,
            BarHeldState::Vertical { pointer, origin } => {
                let target = Self::drag_target_of(Axis::Vertical, port, pointer, origin, pos);
                port.pan_to_wide(port.view_origin.x as i128, target)
            },
            BarHeldState::Horizontal { pointer, origin } => {
                let target = Self::drag_target_of(Axis::Horizontal, port, pointer, origin, pos);
                port.pan_to_wide(target, port.view_origin.y as i128)
            },
        };
        ctx.set_handled();
        ctx.request_paint();
        if changed {
            let request = self.reset_scrollbar_fade(env);
            ctx.request_timer(request);
        }
    }

    fn release(&mut self, port: &Viewport, ctx: &mut EventCtx, pos: Point, env: &Env)
        ensures
            (*final(self), *port, final(ctx)@) == old(self).after_release(
                *port,
                old(ctx)@,
                pos,
                *env,
            ),
    {
        self.hovered = self.find_bar(port, pos, env);
        self.held = BarHeldState::Neither;
        ctx.set_active(false);
        let request = self.reset_scrollbar_fade(env);
        ctx.request_timer(request);
        ctx.set_handled();
    }

    fn press(&mut self, port: &Viewport, ctx: &mut EventCtx, pos: Point, env: &Env)
        ensures
            (*final(self), *port, final(ctx)@) == old(self).after_press(
                *port,
                old(ctx)@,
                pos,
                *env,
            ),
    {
        match self.find_bar(port, pos, env) {
            BarHoveredState::Vertical => {
                self.held = BarHeldState::Vertical { pointer: pos.y, origin: port.view_origin.y };
                ctx.set_active(true);
                ctx.set_handled();
            },
            BarHoveredState::Horizontal => {
                self.held = BarHeldState::Horizontal { pointer: pos.x, origin: port.view_origin.x };
                ctx.set_active(true);
                ctx.set_handled();
            },
            BarHoveredState::Neither => {},
        }
    }

    fn hover(&mut self, port: &Viewport, ctx: &mut EventCtx, pos: Point, env: &Env)
        ensures
            (*final(self), *port, final(ctx)@) == old(self).after_hover(
                *port,
                old(ctx)@,
                pos,
                *env,
            ),
    {
        let over = self.find_bar(port, pos, env);
        let leaving = match self.hovered {
            BarHoveredState::Neither => false,
            _ => true,
        };
        match over {
            BarHoveredState::Neither => {
                if leaving {
                    self.hovered = BarHoveredState::Neither;
                    let request = self.reset_scrollbar_fade(env);
                    ctx.request_timer(request);
                }
            },
            _ => {
                self.hovered = over;
                self.fade = FadeState::Steady;
                ctx.request_paint();
                ctx.set_handled();
            },
        }
    }

    fn timer(&mut self, port: &Viewport, ctx: &mut EventCtx, token: u64, env: &Env)
        ensures
            (*final(self), *port, final(ctx)@) == old(self).after_timer(
                *port,
                old(ctx)@,
                token,
                *env,
            ),
    {
        let steady = match self.fade {
            FadeState::Steady => true,
            _ => false,
        };
        let idle = match self.hovered {
            BarHoveredState::Neither => true,
            _ => false,
        };
        if token == self.generation && steady && idle {
            if env.scrollbar_fade_time == 0 {
                self.fade = FadeState::Hidden;
                ctx.request_paint();
            } else {
                self.fade = FadeState::FadingOut(env.scrollbar_fade_time);
                ctx.request_anim_frame();
            }
            ctx.set_handled();
        }
    }

    fn anim_frame(&mut self, port: &Viewport, ctx: &mut EventCtx, elapsed: u64)
        ensures
            (*final(self), *port, final(ctx)@) == old(self).after_anim_frame(
                *port,
                old(ctx)@,
                elapsed,
            ),
    {
        match self.fade {
            FadeState::FadingOut(remaining) => {
                if elapsed >= remaining {
                    self.fade = FadeState::Hidden;
                } else {
                    self.fade = FadeState::FadingOut(remaining - elapsed);
                    ctx.request_anim_frame();
                }
                ctx.request_paint();
            },
            _ => {},
        }
    }

    /// Offers `event` to the bars before anything else sees it. A drag moves the
    /// window; a press in a bar's track starts a drag; the timer of the current fade
    /// cycle and the animation frames after it fade the bars out. The event is marked
    /// as handled where the bars have dealt with it.
    pub fn event(&mut self, port: &mut Viewport, ctx: &mut EventCtx, event: &Event, env: &Env)
        ensures
            (*final(self), *final(port), final(ctx)@) == old(self).after_event(
                *old(port),
                old(ctx)@,
                *event,
                *env,
            ),
    {
        if self.are_bars_held() {
            match event {
                Event::MouseMove(pos) => self.drag(port, ctx, *pos, env),
                Event::MouseUp(pos) => self.release(port, ctx, *pos, env),
                _ => {},
            }
        } else {
            match event {
                Event::MouseMove(pos) => self.hover(port, ctx, *pos, env),
                Event::MouseDown(pos) => self.press(port, ctx, *pos, env),
                Event::Timer(token) => self.timer(port, ctx, *token, env),
                Event::AnimFrame(elapsed) => self.anim_frame(port, ctx, *elapsed),
                _ => {},
            }
        }
    }

    /// Offers `event` to the bars once the content has seen it. A wheel event that
    /// nothing has dealt with moves the window by its delta, as far as the window's
    /// range allows. If the window moves, the event is marked as handled and the fade
    /// cycle restarts; if it does not, the event is left for an ancestor.
    pub fn handle_scroll(
        &mut self,
        port: &mut Viewport,
        ctx: &mut EventCtx,
        event: &Event,
        env: &Env,
    )
        ensures
            (*final(self), *final(port), final(ctx)@) == old(self).after_scroll(
                *old(port),
                old(ctx)@,
                *event,
                *env,
            ),
    {
        if !ctx.is_handled() {
            if let Event::Wheel(delta) = event {
                if port.pan_by(*delta) {
                    ctx.request_paint();
                    ctx.set_handled();
                    let request = self.reset_scrollbar_fade(env);
                    ctx.request_timer(request);
                }
            }
        }
    }

    /// Takes note of a change in the container's circumstances: a new size shows the
    /// bars and restarts the fade cycle.
    pub fn lifecycle(&mut self, ctx: &mut LifeCycleCtx, event: &LifeCycle, env: &Env)
        ensures
            event is Size ==> *final(self) == old(self).restarted() && final(ctx)@ == old(
                ctx,
            )@.timer(old(self).fade_timer(*env)),
            !(event is Size) ==> *final(self) == *old(self) && final(ctx)@ == old(ctx)@,
    {
        if let LifeCycle::Size(_) = event {
            let request = self.reset_scrollbar_fade(env);
            ctx.request_timer(request);
        }
    }

    /// What painting the bars adds to a painting: nothing while the bars are hidden or
    /// disabled, else the vertical bar and then the horizontal bar, each where it exists
    /// and is enabled, in the configured colour at the current opacity.
    pub open spec fn painting(self, port: Viewport, env: Env) -> Seq<PaintOp> {
        if self.enabled == ScrollbarsEnabled::Neither || self.spec_opacity(&env) == 0 {
            Seq::empty()
        } else {
            self.bar_painting(Axis::Vertical, port, env) + self.bar_painting(
                Axis::Horizontal,
                port,
                env,
            )
        }
    }

    /// What painting the bar along `axis` adds to a painting.
    pub open spec fn bar_painting(self, axis: Axis, port: Viewport, env: Env) -> Seq<PaintOp> {
        if self.enabled.spec_is_enabled(axis) && self.bar_bounds(axis, port, env) is Some {
            seq![
                PaintOp::Fill {
                    rect: self.bar_bounds(axis, port, env).unwrap(),
                    color: env.scrollbar_color,
                    opacity: self.spec_opacity(&env),
                },
            ]
        } else {
            Seq::empty()
        }
    }

    fn draw_bar(&self, axis: Axis, ctx: &mut PaintCtx, port: &Viewport, env: &Env)
        ensures
            final(ctx)@ == old(ctx)@ + self.bar_painting(axis, *port, *env),
    {
        if self.enabled.is_enabled(axis) {
            if let Some(rect) = self.calc_bar_bounds(axis, port, env) {
                ctx.push(
                    PaintOp::Fill { rect, color: env.scrollbar_color, opacity: self.opacity(env) },
                );
            }
        }
    }

    /// Paints the bars on top of what has been painted, in the window's own frame.
    pub fn draw_bars(&self, ctx: &mut PaintCtx, port: &Viewport, env: &Env)
        ensures
            final(ctx)@ == old(ctx)@ + self.painting(*port, *env),
    {
        if self.enabled.is_none() || self.opacity(env) == 0 {
            return;
        }
        self.draw_bar(Axis::Vertical, ctx, port, env);
        self.draw_bar(Axis::Horizontal, ctx, port, env);
    }
}

/// A bar lies in its track, with the configured gap before its near end and after its
/// far end. It starts at the near gap while the window is at the near end of its range,
/// and ends at the far gap, short of the corner if both bars are enabled, once the window
/// has reached the far end of a range that is not empty.
pub proof fn lemma_bar_lies_in_its_track(
    bars: ScrollComponent,
    axis: Axis,
    port: Viewport,
    env: Env,
)
    requires
        bars.bar_bounds(axis, port, env) is Some,
    ensures
        ({
            let bar = bars.bar_bounds(axis, port, env).unwrap();
            let view = axis.spec_major(port.view_size);
            let origin = axis.spec_major_offset(port.view_origin);
            &&& track(axis, port, env).encloses(bar)
            &&& env.scrollbar_pad <= bar.near(axis) < bar.far(axis)
            &&& bar.far(axis) <= view - bar_padding(bars.enabled, env) + env.scrollbar_pad
            &&& bar.extent(axis.spec_cross()) == env.scrollbar_width
            &&& origin == 0 ==> bar.near(axis) == env.scrollbar_pad
            &&& origin >= port.max_origin(axis) > 0 ==> bar.far(axis) == view - bar_padding(
                bars.enabled,
                env,
            ) + env.scrollbar_pad
        }),
{
    let content = axis.spec_major(port.content_size);
    let view = axis.spec_major(port.view_size);
    let origin = axis.spec_major_offset(port.view_origin);
    let range = scroll_range(content, view);
    let length = bar_length(content, view, bars.enabled, env);
    let travel = view - bar_padding(bars.enabled, env) - length;
    let done = if origin > range {
        range
    } else {
        origin as int
    };
    if range > 0 {
        lemma_ceil_div_of_share(travel, done, range);
    }
}

/// A pointer press in the track of a bar, while no bar is held, takes hold of that bar
/// and is dealt with, and every pointer move that follows is dealt with too: neither is
/// left for the content. The move takes the window as far from where it was as the
/// pointer has gone from where it went down, enlarged by the ratio of the content to the
/// window, as far as the window's range allows.
///
/// Where the two tracks overlap, the press takes hold of the vertical bar.
pub proof fn lemma_drag_priority(
    bars: ScrollComponent,
    port: Viewport,
    ctx: EventCtxView,
    later: EventCtxView,
    down: Point,
    to: Point,
    env: Env,
)
    requires
        !bars.spec_are_bars_held(),
        bars.hits_bar(Axis::Vertical, port, down, env) || bars.hits_bar(
            Axis::Horizontal,
            port,
            down,
            env,
        ),
    ensures
        ({
            let axis = if bars.hits_bar(Axis::Vertical, port, down, env) {
                Axis::Vertical
            } else {
                Axis::Horizontal
            };
            let pressed = bars.after_event(port, ctx, Event::MouseDown(down), env);
            let moved = pressed.0.after_event(pressed.1, later, Event::MouseMove(to), env);
            let content = axis.spec_major(port.content_size);
            let view = axis.spec_major(port.view_size);
            &&& pressed.2.is_handled
            &&& pressed.1 == port
            &&& pressed.0.spec_are_bars_held()
            &&& moved.2.is_handled
            &&& moved.0.spec_are_bars_held()
            &&& view > 0
            &&& axis.spec_major_offset(moved.1.view_origin) == clamp_to_range(
                axis.spec_major_offset(port.view_origin) + ceil_div(
                    (axis.spec_major_pos(to) - axis.spec_major_pos(down)) * content,
                    view as int,
                ),
                content,
                view,
            )
        }),
{
    let axis = if bars.hits_bar(Axis::Vertical, port, down, env) {
        Axis::Vertical
    } else {
        Axis::Horizontal
    };
    assert(bars.bar_bounds(axis, port, env) is Some);
    assert(bar_length(
        axis.spec_major(port.content_size),
        axis.spec_major(port.view_size),
        bars.enabled,
        env,
    ) > 0);
}

/// A timer that does not carry the number of the current fade cycle changes nothing.
pub proof fn lemma_stale_timer_changes_nothing(
    bars: ScrollComponent,
    port: Viewport,
    ctx: EventCtxView,
    token: u64,
    env: Env,
)
    requires
        token != bars.generation,
    ensures
        bars.after_event(port, ctx, Event::Timer(token), env) == (bars, port, ctx),
{
}

/// A restart of the fade cycle shows the bars fully, asks for the timer of the new
/// cycle, and makes the timer of the cycle before it stale: when that one fires, nothing
/// changes.
pub proof fn lemma_restart_outdates_timer(
    bars: ScrollComponent,
    port: Viewport,
    ctx: EventCtxView,
    env: Env,
)
    ensures
        bars.restarted().fade == FadeState::Steady,
        bars.restarted().generation != bars.generation,
        bars.fade_timer(env).token == bars.restarted().generation,
        bars.restarted().after_event(port, ctx, Event::Timer(bars.generation), env) == (
            bars.restarted(),
            port,
            ctx,
        ),
{
}

/// The timer of a fade cycle is stale once the cycle has been restarted, however often,
/// short of as many times as there are cycle numbers: when it fires, nothing changes.
pub proof fn lemma_earlier_timers_are_stale(
    bars: ScrollComponent,
    restarts: nat,
    port: Viewport,
    ctx: EventCtxView,
    env: Env,
)
    requires
        0 < restarts <= u64::MAX,
    ensures
        bars.restarted_times(restarts).generation != bars.generation,
        bars.restarted_times(restarts).after_event(
            port,
            ctx,
            Event::Timer(bars.generation),
            env,
        ) == (bars.restarted_times(restarts), port, ctx),
{
    lemma_generation_after_restarts(bars, restarts);
}

/// The number of the fade cycle after so many restarts: cycle numbers go up by one with
/// each restart and start again at zero after the largest.
pub proof fn lemma_generation_after_restarts(bars: ScrollComponent, restarts: nat)
    requires
        restarts <= u64::MAX,
    ensures
        bars.restarted_times(restarts).generation == if bars.generation + restarts <= u64::MAX {
            bars.generation + restarts
        } else {
            bars.generation + restarts - u64::MAX - 1
        },
    decreases restarts,
{
    if restarts > 0 {
        lemma_generation_after_restarts(bars, (restarts - 1) as nat);
    }
}

/// Bars that are fully shown and left alone run their course: the timer of the cycle
/// starts the fade and is dealt with, every animation frame after it leaves the bars no
/// more opaque than they were, and the bars are hidden once the frames add up to the
/// time that the fade takes.
pub proof fn lemma_fade_runs_its_course(
    bars: ScrollComponent,
    port: Viewport,
    ctx: EventCtxView,
    later: EventCtxView,
    elapsed: u64,
    env: Env,
)
    requires
        !bars.spec_are_bars_held(),
        bars.hovered == BarHoveredState::Neither,
        bars.fade == FadeState::Steady,
    ensures
        ({
            let fading = bars.after_event(port, ctx, Event::Timer(bars.generation), env);
            let faded = fading.0.after_event(fading.1, later, Event::AnimFrame(elapsed), env);
            &&& fading.2.is_handled
            &&& fading.1 == port
            &&& faded.1 == port
            &&& env.scrollbar_fade_time > 0 ==> fading.0.fade == FadeState::FadingOut(
                env.scrollbar_fade_time,
            ) && fading.0.spec_opacity(&env) == env.scrollbar_max_opacity
                && fading.2.anim_frame_requested
            &&& env.scrollbar_fade_time == 0 ==> fading.0.fade == FadeState::Hidden
            &&& faded.0.spec_opacity(&env) <= fading.0.spec_opacity(&env)
            &&& elapsed >= env.scrollbar_fade_time ==> faded.0.fade == FadeState::Hidden
                && faded.0.spec_opacity(&env) == 0
            &&& elapsed < env.scrollbar_fade_time ==> faded.0.fade == FadeState::FadingOut(
                (env.scrollbar_fade_time - elapsed) as u64,
            ) && faded.2.anim_frame_requested
        }),
{
    if 0 < elapsed < env.scrollbar_fade_time {
        let whole = env.scrollbar_fade_time as int;
        let left = whole - elapsed;
        let most = env.scrollbar_max_opacity as int;
        assert(0 <= most * left <= most * whole) by (nonlinear_arith)
            requires
                0 <= most,
                0 <= left <= whole,
        ;
        assert(0 <= (most * left) / whole <= most) by (nonlinear_arith)
            requires
                0 <= most * left <= most * whole,
                0 < whole,
        ;
    }
}

/// Whenever the bars move the window, by a drag or by the wheel, they restart the fade
/// cycle and ask for its timer, and the window is in range where they leave it.
pub proof fn lemma_moved_window_restarts_fade(
    bars: ScrollComponent,
    port: Viewport,
    ctx: EventCtxView,
    event: Event,
    env: Env,
)
    ensures
        ({
            let after = bars.after_event(port, ctx, event, env);
            &&& after.1.view_origin != port.view_origin ==> after.0 == bars.restarted()
                && after.2.timers == ctx.timers.push(bars.fade_timer(env)) && after.1.in_range()
            &&& after.1.view_origin == port.view_origin ==> after.1 == port
        }),
        ({
            let after = bars.after_scroll(port, ctx, event, env);
            &&& after.1.view_origin != port.view_origin ==> after.0 == bars.restarted()
                && after.2.timers == ctx.timers.push(bars.fade_timer(env)) && after.1.in_range()
            &&& after.1.view_origin == port.view_origin ==> after.1 == port && after.0 == bars
                && after.2 == ctx
        }),
{
}

} // verus!
