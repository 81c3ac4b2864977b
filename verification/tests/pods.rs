use druid::context::{
    Env, EventCtx, Frame, LayoutCtx, LayoutWarning, LifeCycleCtx, PaintCtx, PaintOp, UpdateCtx,
};
use druid::event::{Event, IdSource, KeyEvent, LifeCycle, MouseEvent, WidgetId};
use druid::geometry::{BoxConstraints, Point, Rect, Size, Vec2, INFINITE};
use druid::label::{ClickCounter, Label};
use druid::widget::{Pod, Widget};
use druid::with_info::Augmented;

fn frame() -> Frame {
    Frame::of(WidgetId(1000))
}

fn press(x: i64, y: i64) -> Event {
    Event::MouseDown(MouseEvent::at(Point::new(x, y)))
}

fn added_counter(ids: &mut IdSource, env: &Env) -> Pod<u64, ClickCounter> {
    let mut pod = Pod::new(ids, ClickCounter::new(Size::new(50, 20)));
    let mut ctx = LifeCycleCtx::new(frame(), IdSource::starting_at(500));
    pod.lifecycle(&mut ctx, &LifeCycle::WidgetAdded, &0, env);
    pod.set_layout_rect(Rect::new(10, 10, 60, 30));
    pod
}

#[test]
fn a_node_hears_nothing_before_it_joined() {
    let env = Env::new();
    let mut ids = IdSource::new();
    let mut pod: Pod<u64, ClickCounter> = Pod::new(&mut ids, ClickCounter::new(Size::new(50, 20)));
    pod.set_layout_rect(Rect::new(0, 0, 50, 20));
    assert!(!pod.is_added());
    let mut data = 0u64;
    let mut ctx = EventCtx::new(frame(), IdSource::new());
    pod.event(&mut ctx, &press(5, 5), &mut data, &env);
    assert_eq!(pod.widget().clicks(), 0);
    let mut up = UpdateCtx::new(frame(), IdSource::new());
    pod.update(&mut up, &1, &env);
    assert!(pod.old_data().is_none());
    let mut lay = LayoutCtx::new(frame());
    let bc = BoxConstraints::new(Size::new(3, 4), Size::new(100, 100));
    assert_eq!(pod.layout(&mut lay, &bc, &data, &env), Size::new(3, 4));
    let mut paint = PaintCtx::new(frame());
    pod.paint(&mut paint, &data, &env);
    assert!(paint.ops.is_empty());
    // any notice but the first passes it by
    let mut lc = LifeCycleCtx::new(frame(), IdSource::new());
    pod.lifecycle(&mut lc, &LifeCycle::HotChanged(true), &data, &env);
    assert!(!pod.is_hot());
    assert!(!pod.is_added());
}

#[test]
fn joining_happens_once_and_takes_a_snapshot() {
    let env = Env::new();
    let mut ids = IdSource::new();
    let mut pod: Pod<u64, ClickCounter> = Pod::new(&mut ids, ClickCounter::new(Size::new(50, 20)));
    assert_eq!(pod.id(), WidgetId(0));
    let mut lc = LifeCycleCtx::new(frame(), IdSource::new());
    pod.lifecycle(&mut lc, &LifeCycle::WidgetAdded, &7, &env);
    assert!(pod.is_added());
    assert_eq!(pod.old_data(), &Some(7));
    pod.lifecycle(&mut lc, &LifeCycle::WidgetAdded, &8, &env);
    assert_eq!(pod.old_data(), &Some(7));
    pod.lifecycle(&mut lc, &LifeCycle::FocusChanged(true), &8, &env);
    assert!(pod.has_focus());
    pod.lifecycle(&mut lc, &LifeCycle::HotChanged(true), &8, &env);
    assert!(pod.is_hot());
    assert_eq!(pod.id(), WidgetId(0));
}

#[test]
fn the_routing_notice_lets_a_new_node_join() {
    let env = Env::new();
    let mut ids = IdSource::new();
    let mut pod: Pod<u64, ClickCounter> = Pod::new(&mut ids, ClickCounter::new(Size::new(50, 20)));
    let mut lc = LifeCycleCtx::new(frame(), IdSource::new());
    let route = LifeCycle::Internal(druid::event::ROUTE_WIDGET_ADDED);
    pod.lifecycle(&mut lc, &route, &7, &env);
    assert!(pod.is_added());
    assert_eq!(pod.old_data(), &Some(7));
    // a node that has joined hears it only where the set of nodes below changed
    pod.state.children_changed = true;
    pod.lifecycle(&mut lc, &route, &8, &env);
    assert!(!pod.state.children_changed);
    assert_eq!(pod.old_data(), &Some(7));
}

#[test]
fn pointer_events_are_routed_by_the_layout_rectangle() {
    let env = Env::new();
    let mut ids = IdSource::new();
    let mut pod = added_counter(&mut ids, &env);
    let mut data = 0u64;

    let mut ctx = EventCtx::new(frame(), IdSource::new());
    pod.event(&mut ctx, &press(5, 5), &mut data, &env);
    assert_eq!(pod.widget().clicks(), 0);
    assert!(!pod.is_hot());
    assert!(!ctx.requests.paint);

    pod.event(&mut ctx, &press(15, 15), &mut data, &env);
    assert_eq!(pod.widget().clicks(), 1);
    assert!(pod.is_hot());
    assert!(ctx.requests.paint);
    assert!(pod.state.needs_paint);
    // the frame of the parent is back in place
    assert_eq!(ctx.frame, frame());

    // outside again, but the node is hot: it still hears the event, and cools down
    pod.event(&mut ctx, &press(500, 500), &mut data, &env);
    assert_eq!(pod.widget().clicks(), 2);
    assert!(!pod.is_hot());
    pod.event(&mut ctx, &press(500, 500), &mut data, &env);
    assert_eq!(pod.widget().clicks(), 2);

    // a node that holds the pointer hears everything
    pod.state.is_active = true;
    pod.event(&mut ctx, &press(500, 500), &mut data, &env);
    assert_eq!(pod.widget().clicks(), 3);
}

#[test]
fn handled_events_stop_and_other_events_always_arrive() {
    let env = Env::new();
    let mut ids = IdSource::new();
    let mut pod = added_counter(&mut ids, &env);
    let mut data = 0u64;
    let mut ctx = EventCtx::new(frame(), IdSource::new());
    ctx.set_handled();
    pod.event(&mut ctx, &press(15, 15), &mut data, &env);
    assert_eq!(pod.widget().clicks(), 0);

    let mut ctx = EventCtx::new(frame(), IdSource::new());
    pod.event(&mut ctx, &Event::KeyDown(KeyEvent { code: 1 }), &mut data, &env);
    assert_eq!(pod.widget().clicks(), 0);
    assert!(!ctx.requests.paint);
}

#[test]
fn update_runs_only_where_data_changed_or_was_asked_for() {
    let env = Env::new();
    let mut ids = IdSource::new();
    let mut pod = added_counter(&mut ids, &env);
    assert_eq!(pod.old_data(), &Some(0));
    let mut up = UpdateCtx::new(frame(), IdSource::new());
    pod.update(&mut up, &0, &env);
    assert_eq!(pod.old_data(), &Some(0));
    pod.update(&mut up, &5, &env);
    assert_eq!(pod.old_data(), &Some(5));
    pod.state.needs_update = true;
    pod.update(&mut up, &5, &env);
    assert!(!pod.state.needs_update);
}

#[test]
fn layout_holds_the_size_to_the_constraints() {
    let env = Env::new();
    let mut ids = IdSource::new();
    let mut pod = added_counter(&mut ids, &env);
    let mut lay = LayoutCtx::new(frame());
    let bc = BoxConstraints::new(Size::new(0, 0), Size::new(30, 100));
    let size = pod.layout(&mut lay, &bc, &0, &env);
    assert_eq!(size, Size::new(30, 20));
    assert_eq!(pod.layout_rect(), Rect::new(10, 10, 40, 30));
    assert!(!pod.state.needs_layout);
    assert!(lay.warnings.is_empty());
    pod.set_origin(Point::new(0, 0));
    assert_eq!(pod.layout_rect(), Rect::new(0, 0, 30, 20));
}

#[test]
fn unbounded_sizes_are_recorded_as_warnings() {
    let env = Env::new();
    let mut ids = IdSource::new();
    let mut pod: Pod<u64, ClickCounter> =
        Pod::new(&mut ids, ClickCounter::new(Size::new(INFINITE, 20)));
    let mut lc = LifeCycleCtx::new(frame(), IdSource::new());
    pod.lifecycle(&mut lc, &LifeCycle::WidgetAdded, &0, &env);
    let mut lay = LayoutCtx::new(frame());
    let bc = BoxConstraints::new(Size::new(0, 0), Size::new(INFINITE, INFINITE));
    let size = pod.layout(&mut lay, &bc, &0, &env);
    assert_eq!(size, Size::new(INFINITE, 20));
    assert_eq!(lay.warnings, vec![LayoutWarning::InfiniteWidth(pod.id())]);
}

#[test]
fn paint_moves_and_clips_the_surface() {
    let env = Env::theme();
    let mut ids = IdSource::new();
    let mut pod = added_counter(&mut ids, &env);
    let mut paint = PaintCtx::new(frame());
    pod.paint(&mut paint, &0, &env);
    assert_eq!(paint.ops.len(), 5);
    assert!(matches!(paint.ops[0], PaintOp::Save));
    assert!(matches!(paint.ops[1], PaintOp::Translate(v) if v == Vec2::new(10, 10)));
    assert!(matches!(paint.ops[2], PaintOp::Clip(r) if r == Rect::new(0, 0, 50, 20)));
    assert!(matches!(paint.ops[3], PaintOp::Fill { rect, .. } if rect == Rect::new(0, 0, 50, 20)));
    assert!(matches!(paint.ops[4], PaintOp::Restore));
    assert!(!pod.state.needs_paint);

    let mut raw = PaintCtx::new(frame());
    pod.paint_raw(&mut raw, &0, &env);
    assert_eq!(raw.ops.len(), 1);
    assert_eq!(raw.frame, frame());
}

#[test]
fn augmented_widgets_behave_as_alone() {
    let env = Env::theme();
    let mut widget = Augmented::new(ClickCounter::new(Size::new(5, 5)), 42u8);
    let mut data = 0u64;
    let mut ctx = EventCtx::new(frame(), IdSource::new());
    widget.event(&mut ctx, &press(1, 1), &mut data, &env);
    assert_eq!(widget.widget().clicks(), 1);
    assert_eq!(*widget.augmentation(), 42);
    let mut lay = LayoutCtx::new(frame());
    let bc = BoxConstraints::new(Size::new(0, 0), Size::new(100, 100));
    assert_eq!(widget.layout(&mut lay, &bc, &data, &env), Size::new(5, 5));
}

#[test]
fn labels_paint_their_text() {
    let env = Env::theme();
    let mut label = Label::new("hello".to_string()).with_size(Size::new(40, 10));
    assert_eq!(label.text(), "hello");
    let mut paint = PaintCtx::new(frame());
    Widget::<u64>::paint(&mut label, &mut paint, &0, &env);
    assert!(matches!(&paint.ops[0], PaintOp::Text { text, .. } if text == "hello"));
    let mut lay = LayoutCtx::new(frame());
    let bc = BoxConstraints::new(Size::new(0, 0), Size::new(30, 30));
    assert_eq!(Widget::<u64>::layout(&mut label, &mut lay, &bc, &0, &env), Size::new(30, 10));
}

#[test]
fn an_answer_outside_the_constraints_is_mended_and_recorded() {
    let env = Env::new();
    let mut ids = IdSource::new();
    let mut pod = added_counter(&mut ids, &env);
    let mut lay = LayoutCtx::new(frame());
    // crossed constraints: nothing lies inside
    let bc = BoxConstraints::new(Size::new(50, 50), Size::new(10, 10));
    let size = pod.layout(&mut lay, &bc, &0, &env);
    assert_eq!(size, Size::new(10, 10));
    assert_eq!(lay.warnings, vec![LayoutWarning::Unconstrained(pod.id())]);
}
