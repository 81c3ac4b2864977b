use druid::context::{Env, EventCtx, Frame, LayoutCtx, LayoutWarning, LifeCycleCtx, PaintCtx, PaintOp};
use druid::event::{Event, IdSource, LifeCycle, MouseEvent, WidgetId};
use druid::geometry::{Axis, BoxConstraints, Point, Rect, Size, Vec2, INFINITE};
use druid::label::{ClickCounter, Label};
use druid::scroll::{
    clamp_offset, farther, log_size_warnings, outside, Scroll, ScrollDirection, ScrollbarsEnabled,
    Viewport,
};
use druid::widget::Widget;

fn frame() -> Frame {
    Frame::of(WidgetId(1000))
}

fn laid_out(direction: ScrollDirection) -> Scroll<u64, ClickCounter> {
    let env = Env::theme();
    let mut ids = IdSource::new();
    let scroll = Scroll::new(&mut ids, ClickCounter::new(Size::new(300, 400)));
    let mut scroll = match direction {
        ScrollDirection::Bidirectional => scroll,
        ScrollDirection::Vertical => scroll.vertical(),
        ScrollDirection::Horizontal => scroll.horizontal(),
    };
    let mut lc = LifeCycleCtx::new(frame(), IdSource::starting_at(800));
    scroll.lifecycle(&mut lc, &LifeCycle::WidgetAdded, &0, &env);
    let mut lay = LayoutCtx::new(frame());
    let bc = BoxConstraints::new(Size::new(0, 0), Size::new(100, 100));
    scroll.layout(&mut lay, &bc, &0, &env);
    scroll
}

#[test]
fn offsets_are_held_to_the_content() {
    assert_eq!(clamp_offset(50, 400, 100), 50);
    assert_eq!(clamp_offset(-5, 400, 100), 0);
    assert_eq!(clamp_offset(500, 400, 100), 300);
    // a content smaller than the window cannot be moved
    assert_eq!(clamp_offset(10, 50, 100), 0);
    assert_eq!(outside(5, 0, 10), 0);
    assert_eq!(outside(15, 0, 10), 5);
    assert_eq!(outside(-3, 0, 10), -3);
    assert_eq!(farther(-5, 3), -5);
    assert_eq!(farther(2, -3), -3);
    assert_eq!(farther(3, 3), 3);
    assert_eq!(farther(-3, 3), 3);
}

#[test]
fn a_viewport_pans_within_the_content() {
    let mut port = Viewport::new();
    port.content_size = Size::new(300, 400);
    port.view_size = Size::new(100, 100);
    assert!(port.pan_by(Vec2::new(10, 20)));
    assert_eq!(port.origin, Point::new(10, 20));
    assert!(!port.pan_by(Vec2::new(0, 0)));
    assert!(port.pan_to(Point::new(1000, -5)));
    assert_eq!(port.origin, Point::new(200, 0));
    assert_eq!(port.clamp(Point::new(-1, 350)), Point::new(0, 300));
}

#[test]
fn a_viewport_moves_the_least_distance_to_show_a_region() {
    let mut port = Viewport::new();
    port.content_size = Size::new(300, 400);
    port.view_size = Size::new(100, 100);
    // already visible
    assert!(!port.pan_to_visible(Rect::new(10, 10, 50, 50)));
    // below the window: the far edge decides
    assert!(port.pan_to_visible(Rect::new(10, 150, 50, 180)));
    assert_eq!(port.origin, Point::new(0, 80));
    // above the window: the near edge decides
    assert!(port.pan_to_visible(Rect::new(10, 20, 50, 60)));
    assert_eq!(port.origin, Point::new(0, 20));
    // larger than the window: the part nearest to its origin is shown
    assert!(port.pan_to_visible(Rect::new(150, 200, 290, 390)));
    assert_eq!(port.origin, Point::new(150, 200));
}

#[test]
fn scrolling_moves_the_child_the_other_way() {
    let mut scroll = laid_out(ScrollDirection::Bidirectional);
    assert_eq!(scroll.child_size(), Size::new(300, 400));
    assert_eq!(scroll.offset(), Vec2::new(0, 0));
    assert!(scroll.scroll_by(Vec2::new(30, 40)));
    assert_eq!(scroll.offset(), Vec2::new(30, 40));
    assert_eq!(scroll.offset_for_axis(Axis::Vertical), 40);
    assert_eq!(scroll.child.layout_rect().origin(), Point::new(-30, -40));
    assert!(scroll.scroll_to(Rect::new(0, 0, 10, 10)));
    assert_eq!(scroll.offset(), Vec2::new(0, 0));
    assert!(scroll.scroll_to_direction(Axis::Horizontal, 1000));
    assert_eq!(scroll.offset(), Vec2::new(200, 0));
    assert!(!scroll.scroll_to_direction(Axis::Horizontal, 200));
    assert_eq!(scroll.child().size, Size::new(300, 400));
    scroll.child_mut().clicks = 4;
    assert_eq!(scroll.child().clicks(), 4);
}

#[test]
fn a_locked_axis_bounds_the_child() {
    let vertical = laid_out(ScrollDirection::Vertical);
    assert_eq!(vertical.child_size(), Size::new(100, 400));
    assert_eq!(vertical.scrollbars_enabled, ScrollbarsEnabled::Vertical);
    let horizontal = laid_out(ScrollDirection::Horizontal);
    assert_eq!(horizontal.child_size(), Size::new(300, 100));
    assert_eq!(horizontal.direction, ScrollDirection::Horizontal);
    let none = laid_out(ScrollDirection::Bidirectional).disable_scrollbars();
    assert_eq!(none.scrollbars_enabled, ScrollbarsEnabled::Neither);
    assert_eq!(none.only_vertical_scrollbar().scrollbars_enabled, ScrollbarsEnabled::Vertical);
    let h = laid_out(ScrollDirection::Bidirectional).only_horizontal_scrollbar();
    assert_eq!(h.scrollbars_enabled, ScrollbarsEnabled::Horizontal);
}

#[test]
fn the_wheel_scrolls_and_the_child_is_hit_through_the_offset() {
    let env = Env::theme();
    let mut scroll = laid_out(ScrollDirection::Bidirectional);
    let mut data = 0u64;
    let mut ctx = EventCtx::new(frame(), IdSource::starting_at(900));
    let wheel = Event::Wheel(MouseEvent { pos: Point::new(5, 5), wheel_delta: Vec2::new(0, 50) });
    scroll.event(&mut ctx, &wheel, &mut data, &env);
    assert_eq!(scroll.offset(), Vec2::new(0, 50));
    assert!(ctx.is_handled());
    assert!(ctx.requests.paint);
    // at the end of the content the wheel moves nothing and stays unhandled
    scroll.scroll_by(Vec2::new(0, 1000));
    let mut ctx = EventCtx::new(frame(), IdSource::starting_at(900));
    scroll.event(&mut ctx, &wheel, &mut data, &env);
    assert!(!ctx.is_handled());
    let mut ctx = EventCtx::new(frame(), IdSource::starting_at(900));
    scroll.event(&mut ctx, &Event::MouseDown(MouseEvent::at(Point::new(5, 5))), &mut data, &env);
    assert_eq!(scroll.child().clicks(), 1);
}

#[test]
fn layout_brings_the_window_back_into_the_content() {
    let env = Env::theme();
    let mut scroll = laid_out(ScrollDirection::Bidirectional);
    scroll.scroll_by(Vec2::new(200, 300));
    assert_eq!(scroll.offset(), Vec2::new(200, 300));
    let mut lay = LayoutCtx::new(frame());
    let bc = BoxConstraints::new(Size::new(0, 0), Size::new(250, 250));
    assert_eq!(scroll.layout(&mut lay, &bc, &0, &env), Size::new(250, 250));
    assert_eq!(scroll.offset(), Vec2::new(50, 150));
}

#[test]
fn painting_clips_to_the_window_and_moves_the_child() {
    let env = Env::theme();
    let mut scroll = laid_out(ScrollDirection::Bidirectional);
    scroll.scroll_by(Vec2::new(10, 20));
    let mut paint = PaintCtx::new(frame());
    scroll.paint(&mut paint, &0, &env);
    assert!(matches!(paint.ops[0], PaintOp::Save));
    assert!(matches!(paint.ops[1], PaintOp::Clip(r) if r == Rect::new(0, 0, 100, 100)));
    assert!(matches!(paint.ops[3], PaintOp::Translate(v) if v == Vec2::new(-10, -20)));
    assert!(matches!(paint.ops.last(), Some(PaintOp::Restore)));
}

#[test]
fn unbounded_windows_are_warned_of() {
    let mut lay = LayoutCtx::new(frame());
    log_size_warnings(&mut lay, Size::new(INFINITE, INFINITE));
    assert_eq!(
        lay.warnings,
        vec![
            LayoutWarning::InfiniteWidth(WidgetId(1000)),
            LayoutWarning::InfiniteHeight(WidgetId(1000))
        ]
    );
    let mut lay = LayoutCtx::new(frame());
    log_size_warnings(&mut lay, Size::new(5, 5));
    assert!(lay.warnings.is_empty());
    let _ = Label::new(String::new());
}
