use druid::context::{
    Env, EventCtx, Frame, LayoutCtx, LayoutWarning, LifeCycleCtx, PaintCtx, PaintOp, Requests,
    UpdateCtx, BACKGROUND_DARK, MISSING_VALUE, PRIMARY_LIGHT, THEME_BACKGROUND_DARK,
    THEME_PRIMARY_LIGHT,
};
use druid::event::{
    Command, Event, IdSource, KeyEvent, MouseEvent, Payload, Target, WidgetId, WindowId,
    APPLY_BINDINGS,
};
use druid::geometry::{Point, Rect, Size, Vec2};

#[test]
fn identities_rise_and_stop_at_the_end() {
    let mut ids = IdSource::new();
    assert_eq!(ids.next_widget_id(), WidgetId(0));
    assert_eq!(ids.next_widget_id(), WidgetId(1));
    assert_eq!(ids.next_window_id(), WindowId(2));
    assert_eq!(ids.draw(), 3);
    let mut last = IdSource::starting_at(u64::MAX - 1);
    assert_eq!(last.draw(), u64::MAX - 1);
    assert_eq!(last.draw(), u64::MAX);
    assert_eq!(last.draw(), u64::MAX);
}

#[test]
fn env_reads_first_entry_and_falls_back() {
    let env = Env::new().adding(7, 70).adding(8, 80).adding(7, 71);
    assert_eq!(env.get(7), Some(70));
    assert_eq!(env.get(8), Some(80));
    assert_eq!(env.get(9), None);
    assert_eq!(env.colour(9), MISSING_VALUE);
    assert_eq!(env.colour(8), 80);
    let theme = Env::theme();
    assert_eq!(theme.colour(PRIMARY_LIGHT), THEME_PRIMARY_LIGHT);
    assert_eq!(theme.colour(BACKGROUND_DARK), THEME_BACKGROUND_DARK);
}

#[test]
fn requests_merge() {
    let mut a = Requests::none();
    a.paint = true;
    let mut b = Requests::none();
    b.update = true;
    let both = a.merge(b);
    assert!(both.paint && both.update);
    assert!(!both.layout && !both.anim_frame && !both.children_changed);
}

#[test]
fn event_context_collects_requests_and_commands() {
    let mut ctx = EventCtx::new(Frame::of(WidgetId(4)), IdSource::new());
    assert!(!ctx.is_handled());
    assert!(!ctx.is_active());
    assert!(!ctx.is_hot());
    assert_eq!(ctx.widget_id(), WidgetId(4));
    assert_eq!(ctx.size(), Size::new(0, 0));
    ctx.request_paint();
    ctx.request_layout();
    ctx.request_anim_frame();
    ctx.request_update();
    ctx.children_changed();
    ctx.set_active(true);
    ctx.set_handled();
    assert!(ctx.requests.paint && ctx.requests.layout && ctx.requests.anim_frame);
    assert!(ctx.requests.update && ctx.requests.children_changed);
    assert!(ctx.is_active() && ctx.is_handled());
    ctx.submit_command(Command::new(APPLY_BINDINGS, Target::Widget(WidgetId(4))));
    ctx.submit_command(Command::with_payload(9, Target::Global, Payload::Number(3)));
    assert_eq!(ctx.commands.len(), 2);
    assert!(ctx.commands[0].is(APPLY_BINDINGS));
    assert!(!ctx.commands[1].is(APPLY_BINDINGS));
    assert_eq!(ctx.commands[1].target, Target::Global);
}

#[test]
fn other_contexts_collect_as_well() {
    let mut lc = LifeCycleCtx::new(Frame::of(WidgetId(1)), IdSource::new());
    lc.request_paint();
    lc.request_layout();
    lc.request_anim_frame();
    lc.children_changed();
    lc.submit_command(Command::new(1, Target::Global));
    assert!(lc.requests.paint && lc.requests.layout && lc.requests.anim_frame);
    assert!(lc.requests.children_changed && !lc.requests.update);
    assert_eq!(lc.commands.len(), 1);

    let mut up = UpdateCtx::new(Frame::of(WidgetId(1)), IdSource::new());
    up.request_paint();
    up.request_layout();
    up.request_anim_frame();
    up.children_changed();
    up.submit_command(Command::new(1, Target::Global));
    assert!(up.requests.paint && up.requests.layout && up.requests.anim_frame);
    assert_eq!(up.size(), Size::new(0, 0));
    assert_eq!(up.commands.len(), 1);

    let mut lay = LayoutCtx::new(Frame::of(WidgetId(1)));
    lay.warn(LayoutWarning::InfiniteWidth(WidgetId(1)));
    lay.submit_command(Command::new(1, Target::Global));
    assert_eq!(lay.warnings, vec![LayoutWarning::InfiniteWidth(WidgetId(1))]);
    assert_eq!(lay.commands.len(), 1);
}

#[test]
fn paint_context_records_instructions_in_order() {
    let mut ctx = PaintCtx::new(Frame::of(WidgetId(1)));
    ctx.save();
    ctx.translate(Vec2::new(1, 2));
    ctx.clip(Rect::new(0, 0, 5, 5));
    ctx.fill(Rect::new(0, 0, 5, 5), 7);
    ctx.stroke_line(Point::new(0, 0), Point::new(1, 1), 8, 2);
    ctx.stroke_rect(Rect::new(0, 0, 1, 1), 9, 1);
    ctx.text(Point::new(0, 0), "hi".to_string(), 3);
    ctx.quarter_turns(1);
    ctx.close_mark(Point::new(2, 2), 4);
    ctx.emit(PaintOp::Save);
    ctx.restore();
    assert_eq!(ctx.ops.len(), 11);
    assert!(matches!(ctx.ops[0], PaintOp::Save));
    assert!(matches!(ctx.ops[1], PaintOp::Translate(v) if v == Vec2::new(1, 2)));
    assert!(matches!(ctx.ops[3], PaintOp::Fill { colour: 7, .. }));
    assert!(matches!(&ctx.ops[6], PaintOp::Text { text, .. } if text == "hi"));
    assert!(matches!(ctx.ops[7], PaintOp::QuarterTurns(1)));
    assert!(matches!(ctx.ops[10], PaintOp::Restore));
    assert_eq!(ctx.size(), Size::new(0, 0));
}

#[test]
fn pointer_events_move_into_a_frame() {
    let event = Event::MouseDown(MouseEvent::at(Point::new(30, 40)));
    assert_eq!(event.pointer(), Some(MouseEvent::at(Point::new(30, 40))));
    match event.relative_to(Point::new(10, 10)) {
        Some(Event::MouseDown(m)) => assert_eq!(m.pos, Point::new(20, 30)),
        _ => panic!("a pointer event has a position"),
    }
    let key = Event::KeyDown(KeyEvent { code: 3 });
    assert!(key.pointer().is_none());
    assert!(key.relative_to(Point::new(10, 10)).is_none());
}
