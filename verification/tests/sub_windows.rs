use druid::app::WindowConfig;
use druid::context::{Env, EventCtx, Frame, LayoutCtx, LifeCycleCtx, PaintCtx, UpdateCtx};
use druid::event::{
    Command, Event, IdSource, LifeCycle, MouseEvent, Payload, Target, WidgetId,
    SUB_WINDOW_HOST_TO_PARENT, SUB_WINDOW_PARENT_TO_HOST,
};
use druid::geometry::{BoxConstraints, Point, Rect, Size, Vec2};
use druid::label::ClickCounter;
use druid::label::Stepper;
use druid::sub_window::{PayloadData, SubWindowHost};
use druid::widget::Widget;

fn frame() -> Frame {
    Frame::of(WidgetId(1000))
}

fn host(sync: bool) -> SubWindowHost<i64, ClickCounter> {
    let env = Env::theme();
    let mut ids = IdSource::new();
    let mut host = SubWindowHost::new(
        &mut ids,
        WidgetId(50),
        WidgetId(60),
        sync,
        7,
        ClickCounter::new(Size::new(20, 20)),
    );
    let mut lc = LifeCycleCtx::new(frame(), IdSource::starting_at(100));
    host.lifecycle(&mut lc, &LifeCycle::WidgetAdded, &(), &env);
    let mut lay = LayoutCtx::new(frame());
    let bc = BoxConstraints::new(Size::new(0, 0), Size::new(100, 100));
    assert_eq!(host.layout(&mut lay, &bc, &(), &env), Size::new(20, 20));
    host
}

#[test]
fn payloads_carry_values_of_their_type() {
    assert!(matches!(5i64.to_payload(), Payload::Number(5)));
    assert_eq!(i64::from_payload(&Payload::Number(5)), Some(5));
    assert_eq!(i64::from_payload(&Payload::Flag(true)), None);
    assert_eq!(bool::from_payload(&true.to_payload()), Some(true));
    assert_eq!(Vec2::from_payload(&Vec2::new(1, 2).to_payload()), Some(Vec2::new(1, 2)));
    assert_eq!(String::from_payload(&"s".to_string().to_payload()), Some("s".to_string()));
    assert_eq!(String::from_payload(&Payload::Empty), None);
}

#[test]
fn a_requirement_names_the_host_only_when_kept_in_step() {
    let mut ids = IdSource::starting_at(10);
    let config = WindowConfig::default();
    let synced = SubWindowHost::make_requirement(
        &mut ids,
        WidgetId(1),
        config,
        true,
        ClickCounter::new(Size::new(1, 1)),
        3i64,
    );
    assert_eq!(synced.host_id, Some(WidgetId(10)));
    assert_eq!(synced.sub_window_root.id(), Some(WidgetId(10)));
    assert_eq!(synced.sub_window_root.parent_id, WidgetId(1));
    assert_eq!(synced.sub_window_root.data, 3);
    assert_eq!(synced.window_id.0, 12);
    let apart = SubWindowHost::make_requirement(
        &mut ids,
        WidgetId(1),
        config,
        false,
        ClickCounter::new(Size::new(1, 1)),
        3i64,
    );
    assert_eq!(apart.host_id, None);
    assert!(!apart.sub_window_root.sync);
}

#[test]
fn a_command_from_the_parent_replaces_the_data() {
    let env = Env::theme();
    let mut host = host(true);
    let mut ctx = EventCtx::new(frame(), IdSource::starting_at(200));
    let update = Event::Command(Command::with_payload(
        SUB_WINDOW_PARENT_TO_HOST,
        Target::Widget(WidgetId(50)),
        Payload::Number(9),
    ));
    host.event(&mut ctx, &update, &mut (), &env);
    assert_eq!(host.data, 9);
    assert!(ctx.is_handled());
    assert_eq!(host.child.old_data(), &Some(9));
    assert!(ctx.commands.is_empty());

    // a payload of another type is marked as handled and changes nothing
    let mut ctx = EventCtx::new(frame(), IdSource::starting_at(200));
    let wrong = Event::Command(Command::with_payload(
        SUB_WINDOW_PARENT_TO_HOST,
        Target::Widget(WidgetId(50)),
        Payload::Flag(true),
    ));
    host.event(&mut ctx, &wrong, &mut (), &env);
    assert_eq!(host.data, 9);
    assert!(ctx.is_handled());
}

#[test]
fn a_sub_window_apart_treats_the_command_as_any_other() {
    let env = Env::theme();
    let mut host = host(false);
    let mut ctx = EventCtx::new(frame(), IdSource::starting_at(200));
    let update = Event::Command(Command::with_payload(
        SUB_WINDOW_PARENT_TO_HOST,
        Target::Widget(WidgetId(50)),
        Payload::Number(9),
    ));
    host.event(&mut ctx, &update, &mut (), &env);
    assert_eq!(host.data, 7);
    assert!(!ctx.is_handled());
}

#[test]
fn the_child_has_its_turn_and_its_update_pass() {
    let env = Env::theme();
    let mut host = host(true);
    let mut ctx = EventCtx::new(frame(), IdSource::starting_at(200));
    host.event(&mut ctx, &Event::MouseDown(MouseEvent::at(Point::new(1, 1))), &mut (), &env);
    assert_eq!(host.child.inner.clicks(), 1);
    // the counter does not change the data, so the parent is not told
    assert!(ctx.commands.is_empty());
    assert!(ctx.requests.paint);
    let mut up = UpdateCtx::new(frame(), IdSource::starting_at(300));
    host.update(&mut up, &(), &(), &env);
    let mut paint = PaintCtx::new(frame());
    host.paint(&mut paint, &(), &env);
    assert_eq!(paint.ops.len(), 1);
    assert_eq!(host.child.layout_rect(), Rect::new(0, 0, 20, 20));
}

#[test]
fn a_change_by_the_child_is_sent_to_the_parent() {
    let env = Env::theme();
    let mut ids = IdSource::new();
    let mut host = SubWindowHost::new(
        &mut ids,
        WidgetId(50),
        WidgetId(60),
        true,
        7i64,
        Stepper::new(5, Size::new(20, 20)),
    );
    let mut lc = LifeCycleCtx::new(frame(), IdSource::starting_at(100));
    host.lifecycle(&mut lc, &LifeCycle::WidgetAdded, &(), &env);
    host.child.set_layout_rect(Rect::new(0, 0, 20, 20));
    let mut ctx = EventCtx::new(frame(), IdSource::starting_at(200));
    host.event(&mut ctx, &Event::MouseDown(MouseEvent::at(Point::new(1, 1))), &mut (), &env);
    assert_eq!(host.data, 12);
    assert_eq!(host.child.old_data(), &Some(12));
    assert_eq!(ctx.commands.len(), 1);
    assert!(ctx.commands[0].is(SUB_WINDOW_HOST_TO_PARENT));
    assert_eq!(ctx.commands[0].target, Target::Widget(WidgetId(60)));
    assert!(matches!(ctx.commands[0].payload, Payload::Number(12)));
    // an event that changes nothing sends nothing
    let mut ctx = EventCtx::new(frame(), IdSource::starting_at(200));
    host.event(&mut ctx, &Event::Internal(0), &mut (), &env);
    assert!(ctx.commands.is_empty());
}
