use scroll_view::clip_box::{log_size_warnings, ClipBox};
use scroll_view::constraints::BoxConstraints;
use scroll_view::context::{
    EventCtx, LayoutCtx, LayoutWarning, LifeCycleCtx, PaintCtx, PaintOp, UpdateCtx,
};
use scroll_view::debug_state::DebugState;
use scroll_view::env::Env;
use scroll_view::event::{Event, LifeCycle};
use scroll_view::geometry::{Axis, Offset, Point, Rect, Size, Vec2, UNBOUNDED};
use scroll_view::scroll::Scroll;
use scroll_view::widget::Widget;

/// A child that reports a fixed size, remembers the constraints it was given, and
/// leaves a mark in every painting.
struct Block {
    size: Size,
    seen: Option<BoxConstraints>,
    visits: u32,
}

impl Block {
    fn sized(width: u32, height: u32) -> Block {
        Block { size: Size::new(width, height), seen: None, visits: 0 }
    }
}

impl Widget<()> for Block {
    fn event(&mut self, ctx: &mut EventCtx, _event: &Event, _data: &mut (), _env: &Env) {
        self.visits += 1;
        ctx.set_handled();
    }

    fn lifecycle(&mut self, _ctx: &mut LifeCycleCtx, _event: &LifeCycle, _data: &(), _env: &Env) {
        self.visits += 1;
    }

    fn update(&mut self, _ctx: &mut UpdateCtx, _old_data: &(), _data: &(), _env: &Env) {
        self.visits += 1;
    }

    fn layout(&mut self, _ctx: &mut LayoutCtx, bc: &BoxConstraints, _data: &(), _env: &Env) -> Size {
        self.seen = Some(*bc);
        self.size
    }

    fn paint(&mut self, ctx: &mut PaintCtx, _data: &(), _env: &Env) {
        ctx.push(PaintOp::Fill { rect: Rect::new(0, 0, 1, 1), color: 1, opacity: 255 });
    }

    fn debug_state(&self, _data: &()) -> DebugState {
        DebugState::leaf("Block")
    }
}

fn loose() -> BoxConstraints {
    BoxConstraints::new(Size::new(50, 60), Size::new(400, 300))
}

#[test]
fn managed_box_starts_empty_and_free() {
    let clip = ClipBox::managed(Block::sized(1, 1));
    assert_eq!(clip.viewport().content_size, Size::new(0, 0));
    assert_eq!(clip.viewport().view_size, Size::new(0, 0));
    assert_eq!(clip.viewport_origin(), Offset::new(0, 0));
    assert_eq!(clip.content_size(), Size::new(0, 0));
    assert!(!clip.constrain_horizontal);
    assert!(!clip.constrain_vertical);
    assert!(!clip.must_fill);
    assert_eq!(clip.child().size, Size::new(1, 1));
}

#[test]
fn free_child_has_no_bounds() {
    let clip = ClipBox::managed(Block::sized(1, 1));
    assert_eq!(
        clip.child_constraints(&loose()),
        BoxConstraints::new(Size::new(0, 0), Size::new(UNBOUNDED, UNBOUNDED))
    );
}

#[test]
fn constrained_axis_takes_the_bound_of_the_container() {
    let mut clip = ClipBox::managed(Block::sized(1, 1));
    clip.set_constrain_horizontal(true);
    assert_eq!(
        clip.child_constraints(&loose()),
        BoxConstraints::new(Size::new(0, 0), Size::new(400, UNBOUNDED))
    );
    clip.set_constrain_vertical(true);
    clip.set_constrain_horizontal(false);
    assert_eq!(
        clip.child_constraints(&loose()),
        BoxConstraints::new(Size::new(0, 0), Size::new(UNBOUNDED, 300))
    );
}

#[test]
fn child_that_must_fill_takes_the_lower_bound_of_the_container() {
    let mut clip = ClipBox::managed(Block::sized(1, 1));
    clip.set_content_must_fill(true);
    assert_eq!(
        clip.child_constraints(&loose()),
        BoxConstraints::new(Size::new(50, 60), Size::new(UNBOUNDED, UNBOUNDED))
    );
}

#[test]
fn layout_hands_the_child_its_constraints_and_takes_its_size() {
    let mut clip = ClipBox::managed(Block::sized(800, 2000));
    let mut ctx = LayoutCtx::new();
    let size = clip.layout(&mut ctx, &loose(), &(), &Env::default());
    assert_eq!(size, Size::new(400, 300));
    assert_eq!(clip.child().seen, Some(BoxConstraints::unbounded()));
    assert_eq!(clip.old_bc, BoxConstraints::unbounded());
    assert_eq!(clip.old_size, Size::new(800, 2000));
    assert_eq!(clip.content_size(), Size::new(800, 2000));
    assert_eq!(clip.viewport().view_size, Size::new(400, 300));
    assert!(ctx.warnings.is_empty());
}

#[test]
fn container_is_as_small_as_its_content_allows() {
    let mut clip = ClipBox::managed(Block::sized(200, 10));
    let size = clip.layout(&mut LayoutCtx::new(), &loose(), &(), &Env::default());
    assert_eq!(size, Size::new(200, 60));
    assert_eq!(clip.content_size(), Size::new(200, 10));
}

#[test]
fn layout_keeps_the_origin() {
    let mut clip = ClipBox::managed(Block::sized(800, 2000));
    clip.layout(&mut LayoutCtx::new(), &loose(), &(), &Env::default());
    clip.pan_by(&mut UpdateCtx::new(), Vec2::new(0, 1000));
    clip.child_mut().size = Size::new(800, 500);
    clip.layout(&mut LayoutCtx::new(), &loose(), &(), &Env::default());
    assert_eq!(clip.viewport_origin(), Offset::new(0, 1000));
}

#[test]
fn constrained_child_is_held_to_its_bound() {
    let mut clip = ClipBox::managed(Block::sized(800, 2000));
    clip.set_constrain_horizontal(true);
    let size = clip.layout(&mut LayoutCtx::new(), &loose(), &(), &Env::default());
    assert_eq!(clip.old_size, Size::new(800, 2000));
    assert_eq!(clip.content_size(), Size::new(400, 2000));
    assert_eq!(size, Size::new(400, 300));
    assert!(!clip.pan_by(&mut UpdateCtx::new(), Vec2::new(10, 0)));
    assert!(clip.pan_by(&mut UpdateCtx::new(), Vec2::new(10, 10)));
    assert_eq!(clip.viewport_origin(), Offset::new(0, 10));
}

#[test]
fn child_that_must_fill_is_raised_to_its_bound() {
    let mut clip = ClipBox::managed(Block::sized(10, 10));
    clip.set_content_must_fill(true);
    let size = clip.layout(&mut LayoutCtx::new(), &loose(), &(), &Env::default());
    assert_eq!(clip.content_size(), Size::new(50, 60));
    assert_eq!(size, Size::new(50, 60));
}

#[test]
fn unbounded_size_on_a_free_axis_raises_a_warning() {
    let mut clip = ClipBox::managed(Block::sized(UNBOUNDED, UNBOUNDED));
    let mut ctx = LayoutCtx::new();
    let size = clip.layout(&mut ctx, &loose(), &(), &Env::default());
    assert_eq!(ctx.warnings, vec![LayoutWarning::InfiniteWidth, LayoutWarning::InfiniteHeight]);
    assert_eq!(clip.content_size(), Size::new(UNBOUNDED, UNBOUNDED));
    assert_eq!(size, Size::new(400, 300));
    assert!(!clip.pan_by(&mut UpdateCtx::new(), Vec2::new(10, 10)));
}

#[test]
fn unbounded_size_on_a_constrained_axis_raises_no_warning() {
    let mut clip = ClipBox::managed(Block::sized(UNBOUNDED, UNBOUNDED));
    clip.set_constrain_vertical(true);
    let mut ctx = LayoutCtx::new();
    clip.layout(&mut ctx, &loose(), &(), &Env::default());
    assert_eq!(ctx.warnings, vec![LayoutWarning::InfiniteWidth]);
    assert_eq!(clip.content_size(), Size::new(UNBOUNDED, 300));
}

#[test]
fn warnings_by_axis() {
    let mut ctx = LayoutCtx::new();
    log_size_warnings(&mut ctx, Size::new(UNBOUNDED, 5), false, false);
    assert_eq!(ctx.warnings, vec![LayoutWarning::InfiniteWidth]);
    log_size_warnings(&mut ctx, Size::new(5, UNBOUNDED), false, false);
    assert_eq!(ctx.warnings, vec![LayoutWarning::InfiniteWidth, LayoutWarning::InfiniteHeight]);
    log_size_warnings(&mut ctx, Size::new(UNBOUNDED, UNBOUNDED), true, true);
    log_size_warnings(&mut ctx, Size::new(4294967294, 0), false, false);
    assert_eq!(ctx.warnings.len(), 2);
}

#[test]
fn record_layout_takes_a_reported_size() {
    let mut clip = ClipBox::managed(Block::sized(0, 0));
    clip.set_constrain_vertical(true);
    let mut ctx = LayoutCtx::new();
    let size = clip.record_layout(&mut ctx, &loose(), Size::new(UNBOUNDED, 1000));
    assert_eq!(size, Size::new(400, 300));
    assert_eq!(clip.content_size(), Size::new(UNBOUNDED, 300));
    assert_eq!(clip.old_size, Size::new(UNBOUNDED, 1000));
    assert_eq!(clip.old_bc, BoxConstraints::new(Size::new(0, 0), Size::new(UNBOUNDED, 300)));
    assert_eq!(ctx.warnings, vec![LayoutWarning::InfiniteWidth]);
}

#[test]
fn pans_report_moves() {
    let mut clip = ClipBox::managed(Block::sized(800, 2000));
    clip.layout(&mut LayoutCtx::new(), &loose(), &(), &Env::default());

    let mut ctx = EventCtx::new(Point::new(0, 0));
    assert!(clip.pan_by(&mut ctx, Vec2::new(5, 5)));
    assert!(ctx.view_context_changed);

    let mut ctx = LayoutCtx::new();
    assert!(!clip.pan_by(&mut ctx, Vec2::new(0, 0)));
    assert!(!ctx.view_context_changed);

    let mut ctx = LifeCycleCtx::new();
    assert!(clip.pan_to_on_axis(&mut ctx, Axis::Vertical, 1700));
    assert!(ctx.view_context_changed);
    assert_eq!(clip.viewport_origin(), Offset::new(5, 1700));

    let mut ctx = UpdateCtx::new();
    assert!(clip.pan_to_visible(&mut ctx, Rect::new(0, 0, 10, 10)));
    assert!(ctx.view_context_changed);
    assert_eq!(clip.viewport_origin(), Offset::new(0, 0));

    let mut ctx = UpdateCtx::new();
    assert!(!clip.pan_to_visible(&mut ctx, Rect::new(0, 0, 10, 10)));
    assert!(!ctx.view_context_changed);
}

#[test]
fn child_paints_in_a_moved_and_clipped_frame() {
    let mut clip = ClipBox::managed(Block::sized(800, 2000));
    clip.layout(&mut LayoutCtx::new(), &loose(), &(), &Env::default());
    clip.pan_by(&mut UpdateCtx::new(), Vec2::new(30, 70));
    let mut ctx = PaintCtx::new();
    clip.paint(&mut ctx, &(), &Env::default());
    assert_eq!(
        ctx.ops,
        vec![
            PaintOp::Save,
            PaintOp::Translate(Vec2::new(-30, -70)),
            PaintOp::Clip(Rect::new(30, 70, 430, 370)),
            PaintOp::Fill { rect: Rect::new(0, 0, 1, 1), color: 1, opacity: 255 },
            PaintOp::Restore,
        ]
    );
}

#[test]
fn passes_reach_the_child() {
    let mut clip = ClipBox::managed(Block::sized(1, 1));
    let env = Env::default();
    let mut ctx = EventCtx::new(Point::new(0, 0));
    clip.event(&mut ctx, &Event::Other, &mut (), &env);
    assert!(ctx.is_handled());
    clip.lifecycle(&mut LifeCycleCtx::new(), &LifeCycle::WidgetAdded, &(), &env);
    clip.update(&mut UpdateCtx::new(), &(), &(), &env);
    assert_eq!(clip.child().visits, 3);
    let state = clip.debug_state(&());
    assert_eq!(state.display_name, "ClipBox");
    assert_eq!(state.children.len(), 1);
    assert_eq!(state.children[0].display_name, "Block");
    assert!(state.children[0].children.is_empty());
}

#[test]
fn vertical_scroll_hands_the_child_its_width_bound_only() {
    let mut scroll: Scroll<(), Block> = Scroll::new(Block::sized(800, 2000)).vertical();
    let mut ctx = LayoutCtx::new();
    let size = scroll.layout(&mut ctx, &loose(), &(), &Env::default());
    assert_eq!(
        scroll.child().seen,
        Some(BoxConstraints::new(Size::new(0, 0), Size::new(400, UNBOUNDED)))
    );
    assert_eq!(scroll.child_size(), Size::new(400, 2000));
    assert_eq!(size, Size::new(400, 300));
    assert_eq!(scroll.offset(), Vec2::new(0, 0));
    assert!(scroll.scroll_by(&mut UpdateCtx::new(), Vec2::new(50, 50)));
    assert_eq!(scroll.offset(), Vec2::new(0, 50));
}

#[test]
fn horizontal_scroll_hands_the_child_its_height_bound_only() {
    let mut scroll: Scroll<(), Block> =
        Scroll::new(Block::sized(800, 2000)).horizontal().content_must_fill(true);
    scroll.layout(&mut LayoutCtx::new(), &loose(), &(), &Env::default());
    assert_eq!(
        scroll.child().seen,
        Some(BoxConstraints::new(Size::new(50, 60), Size::new(UNBOUNDED, 300)))
    );
    assert_eq!(scroll.child_size(), Size::new(800, 300));
}

#[test]
fn scroll_paints_the_child_in_the_frame_of_the_window() {
    let mut scroll: Scroll<(), Block> = Scroll::new(Block::sized(800, 2000));
    scroll.layout(&mut LayoutCtx::new(), &loose(), &(), &Env::default());
    scroll.scroll_by(&mut UpdateCtx::new(), Vec2::new(30, 70));
    let before = (scroll.offset(), scroll.child_size(), scroll.viewport_rect());
    let mut ctx = PaintCtx::new();
    ctx.push(PaintOp::Clip(Rect::new(0, 0, 9, 9)));
    scroll.paint(&mut ctx, &(), &Env::default());
    assert_eq!(
        ctx.ops,
        vec![
            PaintOp::Clip(Rect::new(0, 0, 9, 9)),
            PaintOp::Save,
            PaintOp::Translate(Vec2::new(-30, -70)),
            PaintOp::Clip(Rect::new(30, 70, 430, 370)),
            PaintOp::Fill { rect: Rect::new(0, 0, 1, 1), color: 1, opacity: 255 },
            PaintOp::Restore,
            PaintOp::Fill { rect: Rect::new(390, 13, 398, 58), color: 0x8c8c8c, opacity: 178 },
            PaintOp::Fill { rect: Rect::new(17, 290, 217, 298), color: 0x8c8c8c, opacity: 178 },
        ]
    );
    assert_eq!((scroll.offset(), scroll.child_size(), scroll.viewport_rect()), before);
}
