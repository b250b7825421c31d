use scroll_view::context::{EventCtx, LifeCycleCtx, PaintCtx, PaintOp, TimerRequest};
use scroll_view::env::Env;
use scroll_view::event::{Event, LifeCycle};
use scroll_view::geometry::{Axis, Offset, Point, Rect, Size, Vec2, UNBOUNDED};
use scroll_view::scroll_component::{
    BarHeldState, BarHoveredState, FadeState, ScrollComponent, ScrollbarsEnabled,
};
use scroll_view::viewport::Viewport;

fn env() -> Env {
    Env::default()
}

/// Content that is three windows tall and as wide as the window.
fn tall() -> Viewport {
    Viewport::new(Size::new(400, 1200), Size::new(400, 300))
}

fn ctx() -> EventCtx {
    EventCtx::new(Point::new(0, 0))
}

#[test]
fn default_settings() {
    let env = Env::default();
    assert_eq!(env.scrollbar_width, 8);
    assert_eq!(env.scrollbar_pad, 2);
    assert_eq!(env.scrollbar_min_size, 45);
    assert_eq!(env.scrollbar_max_opacity, 178);
    assert_eq!(env.scrollbar_fade_delay, 1500);
    assert_eq!(env.scrollbar_fade_time, 500_000_000);
}

#[test]
fn new_bars_are_hidden_and_idle() {
    let bars = ScrollComponent::new();
    assert_eq!(bars.fade, FadeState::Hidden);
    assert_eq!(bars.generation, 0);
    assert_eq!(bars.hovered, BarHoveredState::Neither);
    assert_eq!(bars.held, BarHeldState::Neither);
    assert_eq!(bars.enabled, ScrollbarsEnabled::Both);
    assert!(!bars.are_bars_held());
    assert_eq!(bars.opacity(&env()), 0);
}

#[test]
fn enabled_bars_by_axis() {
    assert!(ScrollbarsEnabled::Both.is_enabled(Axis::Vertical));
    assert!(ScrollbarsEnabled::Both.is_enabled(Axis::Horizontal));
    assert!(ScrollbarsEnabled::Vertical.is_enabled(Axis::Vertical));
    assert!(!ScrollbarsEnabled::Vertical.is_enabled(Axis::Horizontal));
    assert!(ScrollbarsEnabled::Horizontal.is_enabled(Axis::Horizontal));
    assert!(!ScrollbarsEnabled::Horizontal.is_enabled(Axis::Vertical));
    assert!(!ScrollbarsEnabled::Neither.is_enabled(Axis::Vertical));
    assert!(ScrollbarsEnabled::Neither.is_none());
    assert!(!ScrollbarsEnabled::Both.is_none());
}

#[test]
fn enabling_one_bar_leaves_the_other() {
    let mut enabled = ScrollbarsEnabled::Neither;
    enabled.set_vertical_scrollbar_enabled(true);
    assert_eq!(enabled, ScrollbarsEnabled::Vertical);
    enabled.set_horizontal_scrollbar_enabled(true);
    assert_eq!(enabled, ScrollbarsEnabled::Both);
    enabled.set_vertical_scrollbar_enabled(false);
    assert_eq!(enabled, ScrollbarsEnabled::Horizontal);
    enabled.set_horizontal_scrollbar_enabled(false);
    assert_eq!(enabled, ScrollbarsEnabled::Neither);
    enabled.set_horizontal_scrollbar_enabled(false);
    assert_eq!(enabled, ScrollbarsEnabled::Neither);
}

#[test]
fn bar_takes_the_share_of_the_window() {
    let bars = ScrollComponent::new();
    let mut port = tall();
    assert_eq!(
        bars.calc_vertical_bar_bounds(&port, &env()),
        Some(Rect::new(390, 2, 398, 77))
    );
    port.pan_by(Vec2::new(0, 450));
    assert_eq!(
        bars.calc_vertical_bar_bounds(&port, &env()),
        Some(Rect::new(390, 109, 398, 184))
    );
    port.pan_by(Vec2::new(0, 450));
    assert_eq!(
        bars.calc_vertical_bar_bounds(&port, &env()),
        Some(Rect::new(390, 215, 398, 290))
    );
    assert_eq!(bars.calc_bar_bounds(Axis::Vertical, &port, &env()), Some(Rect::new(390, 215, 398, 290)));
}

#[test]
fn a_lone_bar_uses_the_corner() {
    let mut bars = ScrollComponent::new();
    bars.enabled = ScrollbarsEnabled::Vertical;
    let mut port = tall();
    port.pan_by(Vec2::new(0, 900));
    assert_eq!(
        bars.calc_vertical_bar_bounds(&port, &env()),
        Some(Rect::new(390, 223, 398, 298))
    );
}

#[test]
fn horizontal_bar_lies_along_the_bottom() {
    let bars = ScrollComponent::new();
    let mut port = Viewport::new(Size::new(1600, 300), Size::new(400, 300));
    assert_eq!(
        bars.calc_horizontal_bar_bounds(&port, &env()),
        Some(Rect::new(2, 290, 102, 298))
    );
    port.pan_by(Vec2::new(1200, 0));
    assert_eq!(
        bars.calc_horizontal_bar_bounds(&port, &env()),
        Some(Rect::new(290, 290, 390, 298))
    );
    assert_eq!(bars.calc_vertical_bar_bounds(&port, &env()), None);
}

#[test]
fn no_bar_where_the_content_fits() {
    let bars = ScrollComponent::new();
    let port = Viewport::new(Size::new(400, 300), Size::new(400, 300));
    assert_eq!(bars.calc_vertical_bar_bounds(&port, &env()), None);
    assert_eq!(bars.calc_horizontal_bar_bounds(&port, &env()), None);
}

#[test]
fn short_bar_is_raised_to_the_minimum() {
    let bars = ScrollComponent::new();
    let port = Viewport::new(Size::new(400, 30000), Size::new(400, 300));
    // the natural length would be 3
    assert_eq!(
        bars.calc_vertical_bar_bounds(&port, &env()),
        Some(Rect::new(390, 2, 398, 47))
    );
}

#[test]
fn bar_is_cut_to_the_room_there_is() {
    let bars = ScrollComponent::new();
    let port = Viewport::new(Size::new(400, 1000), Size::new(400, 40));
    // room is 40 - 12 = 28, less than the minimum length
    assert_eq!(
        bars.calc_vertical_bar_bounds(&port, &env()),
        Some(Rect::new(390, 2, 398, 30))
    );
}

#[test]
fn no_bar_where_there_is_no_room() {
    let bars = ScrollComponent::new();
    let port = Viewport::new(Size::new(400, 1000), Size::new(400, 12));
    assert_eq!(bars.calc_vertical_bar_bounds(&port, &env()), None);
    let port = Viewport::new(Size::new(400, 1000), Size::new(400, 0));
    assert_eq!(bars.calc_vertical_bar_bounds(&port, &env()), None);
    let mut thin = env();
    thin.scrollbar_width = 0;
    assert_eq!(bars.calc_vertical_bar_bounds(&tall(), &thin), None);
}

#[test]
fn unbounded_content_gets_the_shortest_bar_at_the_start() {
    let bars = ScrollComponent::new();
    let port = Viewport::new(Size::new(400, UNBOUNDED), Size::new(400, 300));
    assert_eq!(
        bars.calc_vertical_bar_bounds(&port, &env()),
        Some(Rect::new(390, 2, 398, 47))
    );
    let mut none = env();
    none.scrollbar_min_size = 0;
    assert_eq!(bars.calc_vertical_bar_bounds(&port, &none), None);
}

#[test]
fn bar_of_a_window_out_of_range_stays_in_its_track() {
    let bars = ScrollComponent::new();
    let mut port = tall();
    port.view_origin = Offset::new(0, 5000);
    assert_eq!(
        bars.calc_vertical_bar_bounds(&port, &env()),
        Some(Rect::new(390, 215, 398, 290))
    );
}

#[test]
fn track_reaches_to_the_edge_of_the_window() {
    let bars = ScrollComponent::new();
    let port = tall();
    let env = env();
    assert!(bars.point_hits_vertical_bar(&port, Point::new(390, 0), &env));
    assert!(bars.point_hits_vertical_bar(&port, Point::new(399, 299), &env));
    assert!(bars.point_hits_bar(Axis::Vertical, &port, Point::new(395, 150), &env));
    assert!(!bars.point_hits_vertical_bar(&port, Point::new(389, 10), &env));
    assert!(!bars.point_hits_vertical_bar(&port, Point::new(400, 10), &env));
    assert!(!bars.point_hits_vertical_bar(&port, Point::new(395, 300), &env));
    assert!(!bars.point_hits_vertical_bar(&port, Point::new(395, -1), &env));
    // the content is no wider than the window: there is no horizontal bar to hit
    assert!(!bars.point_hits_horizontal_bar(&port, Point::new(10, 295), &env));
}

#[test]
fn disabled_bar_cannot_be_hit() {
    let mut bars = ScrollComponent::new();
    bars.enabled = ScrollbarsEnabled::Horizontal;
    assert!(!bars.point_hits_vertical_bar(&tall(), Point::new(395, 10), &env()));
    bars.enabled = ScrollbarsEnabled::Neither;
    assert!(!bars.point_hits_vertical_bar(&tall(), Point::new(395, 10), &env()));
}

#[test]
fn reset_starts_a_new_fade_cycle() {
    let mut bars = ScrollComponent::new();
    let request = bars.reset_scrollbar_fade(&env());
    assert_eq!(request, TimerRequest { delay: 1500, token: 1 });
    assert_eq!(bars.fade, FadeState::Steady);
    assert_eq!(bars.generation, 1);
    assert_eq!(bars.opacity(&env()), 178);
    let request = bars.reset_scrollbar_fade(&env());
    assert_eq!(request.token, 2);
}

#[test]
fn fade_cycles_are_numbered_round() {
    let mut bars = ScrollComponent::new();
    bars.generation = u64::MAX;
    let request = bars.reset_scrollbar_fade(&env());
    assert_eq!(request.token, 0);
    assert_eq!(bars.generation, 0);
}

#[test]
fn opacity_follows_the_time_left() {
    let mut bars = ScrollComponent::new();
    let env = env();
    bars.fade = FadeState::FadingOut(500_000_000);
    assert_eq!(bars.opacity(&env), 178);
    bars.fade = FadeState::FadingOut(250_000_000);
    assert_eq!(bars.opacity(&env), 89);
    bars.fade = FadeState::FadingOut(100_000_000);
    assert_eq!(bars.opacity(&env), 35);
    bars.fade = FadeState::FadingOut(1);
    assert_eq!(bars.opacity(&env), 0);
    bars.fade = FadeState::FadingOut(u64::MAX);
    assert_eq!(bars.opacity(&env), 178);
    let mut instant = env;
    instant.scrollbar_fade_time = 0;
    bars.fade = FadeState::FadingOut(5);
    assert_eq!(bars.opacity(&instant), 0);
}

#[test]
fn wheel_scrolls_and_shows_the_bars() {
    let mut bars = ScrollComponent::new();
    let mut port = tall();
    let mut ctx = ctx();
    bars.handle_scroll(&mut port, &mut ctx, &Event::Wheel(Vec2::new(0, 10)), &env());
    assert_eq!(port.view_origin, Offset::new(0, 10));
    assert!(ctx.is_handled());
    assert!(ctx.paint_requested);
    assert_eq!(ctx.timers, vec![TimerRequest { delay: 1500, token: 1 }]);
    assert_eq!(bars.fade, FadeState::Steady);
    assert_eq!(bars.generation, 1);
}

#[test]
fn wheel_at_the_end_of_the_range_is_left_alone() {
    let mut bars = ScrollComponent::new();
    let mut port = tall();
    let mut ctx = ctx();
    bars.handle_scroll(&mut port, &mut ctx, &Event::Wheel(Vec2::new(0, -10)), &env());
    assert!(!ctx.is_handled());
    assert!(!ctx.paint_requested);
    assert!(ctx.timers.is_empty());
    assert_eq!(bars, ScrollComponent::new());
    bars.handle_scroll(&mut port, &mut ctx, &Event::Wheel(Vec2::new(25, 0)), &env());
    assert!(!ctx.is_handled());
    assert_eq!(port.view_origin, Offset::new(0, 0));
}

#[test]
fn wheel_that_was_dealt_with_does_not_scroll() {
    let mut bars = ScrollComponent::new();
    let mut port = tall();
    let mut ctx = ctx();
    ctx.set_handled();
    bars.handle_scroll(&mut port, &mut ctx, &Event::Wheel(Vec2::new(0, 10)), &env());
    assert_eq!(port.view_origin, Offset::new(0, 0));
    assert_eq!(bars, ScrollComponent::new());
}

#[test]
fn only_the_wheel_scrolls() {
    let mut bars = ScrollComponent::new();
    let mut port = tall();
    let mut ctx = ctx();
    bars.handle_scroll(&mut port, &mut ctx, &Event::MouseMove(Point::new(0, 10)), &env());
    bars.handle_scroll(&mut port, &mut ctx, &Event::Other, &env());
    assert_eq!(port.view_origin, Offset::new(0, 0));
    assert!(!ctx.is_handled());
}

#[test]
fn timer_of_the_cycle_starts_the_fade() {
    let mut bars = ScrollComponent::new();
    let mut port = tall();
    let env = env();
    let request = bars.reset_scrollbar_fade(&env);
    let mut ctx = ctx();
    bars.event(&mut port, &mut ctx, &Event::Timer(request.token), &env);
    assert_eq!(bars.fade, FadeState::FadingOut(500_000_000));
    assert!(ctx.is_handled());
    assert!(ctx.anim_frame_requested);
}

#[test]
fn timer_of_an_earlier_cycle_changes_nothing() {
    let mut bars = ScrollComponent::new();
    let mut port = tall();
    let env = env();
    let first = bars.reset_scrollbar_fade(&env);
    let second = bars.reset_scrollbar_fade(&env);
    assert_ne!(first.token, second.token);
    let before = bars;
    let mut ctx = ctx();
    bars.event(&mut port, &mut ctx, &Event::Timer(first.token), &env);
    assert_eq!(bars, before);
    assert_eq!(port, tall());
    assert!(!ctx.is_handled());
    assert!(!ctx.anim_frame_requested);
    assert!(!ctx.paint_requested);
    bars.event(&mut port, &mut ctx, &Event::Timer(second.token), &env);
    assert_eq!(bars.fade, FadeState::FadingOut(500_000_000));
}

#[test]
fn timer_does_not_start_a_fade_twice() {
    let mut bars = ScrollComponent::new();
    let mut port = tall();
    let env = env();
    let request = bars.reset_scrollbar_fade(&env);
    bars.event(&mut port, &mut ctx(), &Event::Timer(request.token), &env);
    bars.event(&mut port, &mut ctx(), &Event::AnimFrame(100_000_000), &env);
    let mut ctx = ctx();
    bars.event(&mut port, &mut ctx, &Event::Timer(request.token), &env);
    assert_eq!(bars.fade, FadeState::FadingOut(400_000_000));
    assert!(!ctx.is_handled());
}

#[test]
fn timer_hides_the_bars_at_once_without_a_fade_time() {
    let mut bars = ScrollComponent::new();
    let mut port = tall();
    let mut env = env();
    env.scrollbar_fade_time = 0;
    let request = bars.reset_scrollbar_fade(&env);
    let mut ctx = ctx();
    bars.event(&mut port, &mut ctx, &Event::Timer(request.token), &env);
    assert_eq!(bars.fade, FadeState::Hidden);
    assert!(ctx.is_handled());
    assert!(ctx.paint_requested);
    assert!(!ctx.anim_frame_requested);
}

#[test]
fn animation_frames_fade_the_bars_out() {
    let mut bars = ScrollComponent::new();
    let mut port = tall();
    let env = env();
    bars.fade = FadeState::FadingOut(500_000_000);
    let mut ctx = EventCtx::new(Point::new(0, 0));
    bars.event(&mut port, &mut ctx, &Event::AnimFrame(200_000_000), &env);
    assert_eq!(bars.fade, FadeState::FadingOut(300_000_000));
    assert!(ctx.anim_frame_requested);
    assert!(ctx.paint_requested);
    assert!(!ctx.is_handled());
    assert_eq!(bars.opacity(&env), 106);

    let mut ctx = EventCtx::new(Point::new(0, 0));
    bars.event(&mut port, &mut ctx, &Event::AnimFrame(300_000_000), &env);
    assert_eq!(bars.fade, FadeState::Hidden);
    assert!(!ctx.anim_frame_requested);
    assert!(ctx.paint_requested);

    let mut ctx = EventCtx::new(Point::new(0, 0));
    bars.event(&mut port, &mut ctx, &Event::AnimFrame(300_000_000), &env);
    assert_eq!(bars.fade, FadeState::Hidden);
    assert!(!ctx.paint_requested);
}

#[test]
fn animation_frames_leave_steady_bars_alone() {
    let mut bars = ScrollComponent::new();
    let mut port = tall();
    bars.reset_scrollbar_fade(&env());
    let before = bars;
    let mut ctx = ctx();
    bars.event(&mut port, &mut ctx, &Event::AnimFrame(1_000_000_000), &env());
    assert_eq!(bars, before);
    assert!(!ctx.paint_requested);
}

#[test]
fn press_in_the_track_takes_hold_of_the_bar() {
    let mut bars = ScrollComponent::new();
    let mut port = tall();
    port.pan_by(Vec2::new(0, 100));
    let mut ctx = ctx();
    bars.event(&mut port, &mut ctx, &Event::MouseDown(Point::new(395, 10)), &env());
    assert_eq!(bars.held, BarHeldState::Vertical { pointer: 10, origin: 100 });
    assert!(bars.are_bars_held());
    assert!(ctx.is_handled());
    assert!(ctx.is_active);
    assert_eq!(port.view_origin, Offset::new(0, 100));
}

#[test]
fn press_elsewhere_goes_by() {
    let mut bars = ScrollComponent::new();
    let mut port = tall();
    let mut ctx = ctx();
    bars.event(&mut port, &mut ctx, &Event::MouseDown(Point::new(100, 10)), &env());
    assert_eq!(bars, ScrollComponent::new());
    assert!(!ctx.is_handled());
    assert!(!ctx.is_active);
}

#[test]
fn press_where_the_tracks_cross_takes_the_vertical_bar() {
    let mut bars = ScrollComponent::new();
    let mut port = Viewport::new(Size::new(1600, 1200), Size::new(400, 300));
    port.pan_by(Vec2::new(7, 9));
    bars.event(&mut port, &mut ctx(), &Event::MouseDown(Point::new(395, 295)), &env());
    assert_eq!(bars.held, BarHeldState::Vertical { pointer: 295, origin: 9 });
}

#[test]
fn press_in_the_horizontal_track_takes_the_horizontal_bar() {
    let mut bars = ScrollComponent::new();
    let mut port = Viewport::new(Size::new(1600, 1200), Size::new(400, 300));
    port.pan_by(Vec2::new(7, 9));
    bars.event(&mut port, &mut ctx(), &Event::MouseDown(Point::new(200, 295)), &env());
    assert_eq!(bars.held, BarHeldState::Horizontal { pointer: 200, origin: 7 });
}

#[test]
fn drag_moves_the_window_in_proportion() {
    let mut bars = ScrollComponent::new();
    let mut port = tall();
    let env = env();
    bars.event(&mut port, &mut ctx(), &Event::MouseDown(Point::new(395, 10)), &env);

    let mut ctx = ctx();
    bars.event(&mut port, &mut ctx, &Event::MouseMove(Point::new(395, 60)), &env);
    // 50 units of pointer travel, content four times the window
    assert_eq!(port.view_origin, Offset::new(0, 200));
    assert!(ctx.is_handled());
    assert!(ctx.paint_requested);
    assert_eq!(ctx.timers.len(), 1);
    assert_eq!(bars.fade, FadeState::Steady);

    bars.event(&mut port, &mut EventCtx::new(Point::new(0, 0)), &Event::MouseMove(Point::new(0, 11)), &env);
    assert_eq!(port.view_origin, Offset::new(0, 4));
}

#[test]
fn drag_rounds_up() {
    let mut bars = ScrollComponent::new();
    let mut port = Viewport::new(Size::new(400, 1000), Size::new(400, 300));
    port.pan_by(Vec2::new(0, 100));
    let env = env();
    bars.event(&mut port, &mut ctx(), &Event::MouseDown(Point::new(395, 10)), &env);
    bars.event(&mut port, &mut ctx(), &Event::MouseMove(Point::new(395, 11)), &env);
    // 1000 / 300 = 3.33..
    assert_eq!(port.view_origin, Offset::new(0, 104));
    bars.event(&mut port, &mut ctx(), &Event::MouseMove(Point::new(395, 9)), &env);
    assert_eq!(port.view_origin, Offset::new(0, 97));
    bars.event(&mut port, &mut ctx(), &Event::MouseMove(Point::new(395, 10)), &env);
    assert_eq!(port.view_origin, Offset::new(0, 100));
}

#[test]
fn drag_beyond_the_track_stops_at_the_ends_of_the_range() {
    let mut bars = ScrollComponent::new();
    let mut port = tall();
    let env = env();
    bars.event(&mut port, &mut ctx(), &Event::MouseDown(Point::new(395, 10)), &env);
    bars.event(&mut port, &mut ctx(), &Event::MouseMove(Point::new(-4000, 100_000)), &env);
    assert_eq!(port.view_origin, Offset::new(0, 900));
    bars.event(&mut port, &mut ctx(), &Event::MouseMove(Point::new(395, i64::MIN)), &env);
    assert_eq!(port.view_origin, Offset::new(0, 0));
    bars.event(&mut port, &mut ctx(), &Event::MouseMove(Point::new(395, i64::MAX)), &env);
    assert_eq!(port.view_origin, Offset::new(0, 900));
}

#[test]
fn drag_that_moves_nothing_keeps_the_fade_cycle() {
    let mut bars = ScrollComponent::new();
    let mut port = tall();
    let env = env();
    bars.event(&mut port, &mut ctx(), &Event::MouseDown(Point::new(395, 10)), &env);
    let before = bars;
    let mut ctx = ctx();
    bars.event(&mut port, &mut ctx, &Event::MouseMove(Point::new(395, 5)), &env);
    assert_eq!(bars, before);
    assert!(ctx.is_handled());
    assert!(ctx.timers.is_empty());
}

#[test]
fn drag_of_the_horizontal_bar_moves_sideways() {
    let mut bars = ScrollComponent::new();
    let mut port = Viewport::new(Size::new(1600, 1200), Size::new(400, 300));
    port.pan_by(Vec2::new(0, 30));
    let env = env();
    bars.event(&mut port, &mut ctx(), &Event::MouseDown(Point::new(20, 295)), &env);
    bars.event(&mut port, &mut ctx(), &Event::MouseMove(Point::new(45, 0)), &env);
    assert_eq!(port.view_origin, Offset::new(100, 30));
}

#[test]
fn release_ends_the_drag_and_restarts_the_fade() {
    let mut bars = ScrollComponent::new();
    let mut port = tall();
    let env = env();
    bars.event(&mut port, &mut ctx(), &Event::MouseDown(Point::new(395, 10)), &env);
    let generation = bars.generation;
    let mut ctx = ctx();
    ctx.set_active(true);
    bars.event(&mut port, &mut ctx, &Event::MouseUp(Point::new(100, 100)), &env);
    assert_eq!(bars.held, BarHeldState::Neither);
    assert_eq!(bars.hovered, BarHoveredState::Neither);
    assert_eq!(bars.fade, FadeState::Steady);
    assert_ne!(bars.generation, generation);
    assert!(ctx.is_handled());
    assert!(!ctx.is_active);
    assert_eq!(ctx.timers, vec![TimerRequest { delay: 1500, token: bars.generation }]);
}

#[test]
fn release_over_a_bar_keeps_it_hovered() {
    let mut bars = ScrollComponent::new();
    let mut port = tall();
    let env = env();
    bars.event(&mut port, &mut ctx(), &Event::MouseDown(Point::new(395, 10)), &env);
    bars.event(&mut port, &mut ctx(), &Event::MouseUp(Point::new(395, 20)), &env);
    assert_eq!(bars.hovered, BarHoveredState::Vertical);
    // the timer of the cycle does not fade bars under the pointer
    let mut ctx = ctx();
    bars.event(&mut port, &mut ctx, &Event::Timer(bars.generation), &env);
    assert_eq!(bars.fade, FadeState::Steady);
    assert!(!ctx.is_handled());
}

#[test]
fn held_bars_ignore_timers_and_presses() {
    let mut bars = ScrollComponent::new();
    let mut port = tall();
    let env = env();
    bars.reset_scrollbar_fade(&env);
    bars.event(&mut port, &mut ctx(), &Event::MouseDown(Point::new(395, 10)), &env);
    let before = bars;
    let mut ctx = ctx();
    bars.event(&mut port, &mut ctx, &Event::Timer(bars.generation), &env);
    bars.event(&mut port, &mut ctx, &Event::AnimFrame(7), &env);
    bars.event(&mut port, &mut ctx, &Event::MouseDown(Point::new(395, 50)), &env);
    bars.event(&mut port, &mut ctx, &Event::Wheel(Vec2::new(0, 5)), &env);
    assert_eq!(bars, before);
    assert!(!ctx.is_handled());
}

#[test]
fn hover_shows_the_bars() {
    let mut bars = ScrollComponent::new();
    let mut port = tall();
    let env = env();
    let mut ctx = ctx();
    bars.event(&mut port, &mut ctx, &Event::MouseMove(Point::new(395, 10)), &env);
    assert_eq!(bars.hovered, BarHoveredState::Vertical);
    assert_eq!(bars.fade, FadeState::Steady);
    assert!(ctx.is_handled());
    assert!(ctx.paint_requested);
    assert!(ctx.timers.is_empty());
}

#[test]
fn leaving_the_bars_restarts_the_fade() {
    let mut bars = ScrollComponent::new();
    let mut port = tall();
    let env = env();
    bars.event(&mut port, &mut ctx(), &Event::MouseMove(Point::new(395, 10)), &env);
    let mut ctx = ctx();
    bars.event(&mut port, &mut ctx, &Event::MouseMove(Point::new(100, 10)), &env);
    assert_eq!(bars.hovered, BarHoveredState::Neither);
    assert_eq!(bars.fade, FadeState::Steady);
    assert_eq!(ctx.timers, vec![TimerRequest { delay: 1500, token: bars.generation }]);
    assert!(!ctx.is_handled());

    let before = bars;
    let mut ctx = EventCtx::new(Point::new(0, 0));
    bars.event(&mut port, &mut ctx, &Event::MouseMove(Point::new(101, 10)), &env);
    assert_eq!(bars, before);
    assert!(ctx.timers.is_empty());
}

#[test]
fn release_without_a_drag_goes_by() {
    let mut bars = ScrollComponent::new();
    let mut port = tall();
    let mut ctx = ctx();
    bars.event(&mut port, &mut ctx, &Event::MouseUp(Point::new(395, 10)), &env());
    assert_eq!(bars, ScrollComponent::new());
    assert!(!ctx.is_handled());
}

#[test]
fn new_size_shows_the_bars() {
    let mut bars = ScrollComponent::new();
    let mut ctx = LifeCycleCtx::new();
    bars.lifecycle(&mut ctx, &LifeCycle::WidgetAdded, &env());
    assert_eq!(bars, ScrollComponent::new());
    assert!(ctx.timers.is_empty());
    bars.lifecycle(&mut ctx, &LifeCycle::Size(Size::new(1, 1)), &env());
    assert_eq!(bars.fade, FadeState::Steady);
    assert_eq!(ctx.timers, vec![TimerRequest { delay: 1500, token: 1 }]);
}

#[test]
fn hidden_bars_are_not_painted() {
    let bars = ScrollComponent::new();
    let mut ctx = PaintCtx::new();
    bars.draw_bars(&mut ctx, &tall(), &env());
    assert!(ctx.ops.is_empty());
}

#[test]
fn shown_bars_are_painted_at_their_opacity() {
    let mut bars = ScrollComponent::new();
    let env = env();
    bars.reset_scrollbar_fade(&env);
    let port = Viewport::new(Size::new(1600, 1200), Size::new(400, 300));
    let mut ctx = PaintCtx::new();
    ctx.push(PaintOp::Save);
    bars.draw_bars(&mut ctx, &port, &env);
    assert_eq!(
        ctx.ops,
        vec![
            PaintOp::Save,
            PaintOp::Fill { rect: Rect::new(390, 2, 398, 77), color: 0x8c8c8c, opacity: 178 },
            PaintOp::Fill { rect: Rect::new(2, 290, 102, 298), color: 0x8c8c8c, opacity: 178 },
        ]
    );

    bars.fade = FadeState::FadingOut(250_000_000);
    bars.enabled = ScrollbarsEnabled::Horizontal;
    let mut ctx = PaintCtx::new();
    bars.draw_bars(&mut ctx, &port, &env);
    assert_eq!(
        ctx.ops,
        vec![PaintOp::Fill { rect: Rect::new(2, 290, 102, 298), color: 0x8c8c8c, opacity: 89 }]
    );

    bars.enabled = ScrollbarsEnabled::Neither;
    let mut ctx = PaintCtx::new();
    bars.draw_bars(&mut ctx, &port, &env);
    assert!(ctx.ops.is_empty());
}

#[test]
fn each_bar_has_its_own_state() {
    let mut bars = ScrollComponent::new();
    let env = env();
    let port = tall();
    assert_eq!(bars.bar_state(Axis::Vertical, &port, &env), FadeState::Hidden);
    bars.reset_scrollbar_fade(&env);
    assert_eq!(bars.bar_state(Axis::Vertical, &port, &env), FadeState::Steady);
    // the content is no wider than the window
    assert_eq!(bars.bar_state(Axis::Horizontal, &port, &env), FadeState::Hidden);
    bars.fade = FadeState::FadingOut(9);
    assert_eq!(bars.bar_state(Axis::Vertical, &port, &env), FadeState::FadingOut(9));
    bars.enabled = ScrollbarsEnabled::Horizontal;
    assert_eq!(bars.bar_state(Axis::Vertical, &port, &env), FadeState::Hidden);
}

#[test]
fn bars_stay_in_their_tracks() {
    let env = env();
    for enabled in [ScrollbarsEnabled::Both, ScrollbarsEnabled::Vertical] {
        let mut bars = ScrollComponent::new();
        bars.enabled = enabled;
        for (content, view) in [(1200, 300), (301, 300), (100_000, 333), (UNBOUNDED, 50)] {
            let mut port = Viewport::new(Size::new(400, content), Size::new(400, view));
            for origin in [0, 1, 7, 450, 900, 99_666, UNBOUNDED] {
                port.pan_to_on_axis(Axis::Vertical, origin as i64);
                let bar = bars.calc_vertical_bar_bounds(&port, &env).unwrap();
                assert!(2 <= bar.y0 && bar.y0 < bar.y1 && bar.y1 <= view as i64 - 2);
                assert_eq!(bar.x1 - bar.x0, 8);
                assert_eq!(bar.x1, 398);
                assert!(bars.point_hits_vertical_bar(&port, Point::new(bar.x0, bar.y0), &env));
                assert!(bars.point_hits_vertical_bar(&port, Point::new(bar.x1 - 1, bar.y1 - 1), &env));
            }
        }
    }
}

#[test]
fn timers_of_all_earlier_cycles_are_stale() {
    let mut bars = ScrollComponent::new();
    let mut port = tall();
    let env = env();
    bars.generation = u64::MAX - 2;
    let mut earlier = vec![bars.generation];
    for _ in 0..5 {
        let request = bars.reset_scrollbar_fade(&env);
        for token in &earlier {
            let before = bars;
            let mut ctx = ctx();
            bars.event(&mut port, &mut ctx, &Event::Timer(*token), &env);
            assert_eq!(bars, before);
            assert!(!ctx.is_handled());
        }
        earlier.push(request.token);
    }
    assert_eq!(earlier, vec![u64::MAX - 2, u64::MAX - 1, u64::MAX, 0, 1, 2]);
}
