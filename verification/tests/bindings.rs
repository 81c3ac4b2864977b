use druid::binding::{
    Binding, BindingExt, BindingHost, DataToWidgetOnlyBinding, LensBinding, LensBindingExt,
    WidgetBindingExt, WidgetToDataOnlyBinding,
};
use druid::context::{Env, EventCtx, Frame, LayoutCtx, LifeCycleCtx, PaintCtx, UpdateCtx};
use druid::event::{
    Command, Event, IdSource, LifeCycle, MouseEvent, Target, WidgetId, APPLY_BINDINGS,
};
use druid::geometry::{Axis, BoxConstraints, Point, Rect, Size, Vec2};
use druid::label::Label;
use druid::lens::{Identity, Vec2X, Vec2Y};
use druid::scroll::{Scroll, ScrollToProperty};
use druid::widget::Widget;

fn frame() -> Frame {
    Frame::of(WidgetId(1000))
}

fn wheel(dx: i64, dy: i64) -> Event {
    Event::Wheel(MouseEvent { pos: Point::new(5, 5), wheel_delta: Vec2::new(dx, dy) })
}

fn update_ctx() -> UpdateCtx {
    UpdateCtx::new(frame(), IdSource::starting_at(900))
}

fn event_ctx() -> EventCtx {
    EventCtx::new(frame(), IdSource::starting_at(900))
}

type Offsets = (
    druid::binding::LensPropBinding<Vec2, Vec2X, ScrollToProperty<Vec2, Label>>,
    druid::binding::LensPropBinding<Vec2, Vec2Y, ScrollToProperty<Vec2, Label>>,
);

fn offsets() -> Offsets {
    Vec2X
        .bind(ScrollToProperty::new(Axis::Horizontal))
        .and(Vec2Y.bind(ScrollToProperty::new(Axis::Vertical)))
}

/// A scroll container of 100 by 100 over a child of 300 by 400, laid out.
fn scroll(ids: &mut IdSource, env: &Env, data: &Vec2) -> Scroll<Vec2, Label> {
    let child = Label::new("tall".to_string()).with_size(Size::new(300, 400));
    let mut scroll = Scroll::new(ids, child);
    let mut lc = LifeCycleCtx::new(frame(), IdSource::starting_at(800));
    scroll.lifecycle(&mut lc, &LifeCycle::WidgetAdded, data, env);
    let mut lay = LayoutCtx::new(frame());
    let bc = BoxConstraints::new(Size::new(0, 0), Size::new(100, 100));
    assert_eq!(scroll.layout(&mut lay, &bc, data, env), Size::new(100, 100));
    scroll
}

#[test]
fn lens_binding_detects_and_applies() {
    let env = Env::new();
    let binding: LensBinding<Vec2, Vec2, i64, Vec2X, Vec2Y> = Vec2X.bind_lens(Vec2Y);
    let controlled = Vec2::new(0, 51);
    let mut data = Vec2::new(50, 0);
    // the controlled property is one unit away from the data
    let mut change = None;
    binding.append_change_required(&controlled, &data, &mut change, &env);
    assert_eq!(change, Some(51));
    let mut ctx = event_ctx();
    binding.apply_change_to_data(&controlled, &mut data, change.unwrap(), &mut ctx, &env);
    assert_eq!(data, Vec2::new(51, 0));
    // one round has brought them together; a second look finds nothing
    let mut again = Some(0);
    binding.append_change_required(&controlled, &data, &mut again, &env);
    assert_eq!(again, None);
}

#[test]
fn lens_binding_pushes_data_to_the_controlled_item() {
    let env = Env::new();
    let binding = LensBinding::new(Vec2X, Vec2Y);
    let mut controlled = Vec2::new(1, 2);
    let mut ctx = update_ctx();
    binding.apply_data_to_controlled(&Vec2::new(9, 8), &mut controlled, &mut ctx, &env);
    assert_eq!(controlled, Vec2::new(1, 9));
    assert!(ctx.requests.paint);
}

#[test]
fn one_way_bindings_cut_a_direction() {
    let env = Env::new();
    let forward: DataToWidgetOnlyBinding<LensBinding<Vec2, Vec2, i64, Vec2X, Vec2Y>> =
        LensBinding::new(Vec2X, Vec2Y).forward();
    let mut controlled = Vec2::new(1, 2);
    let mut up = update_ctx();
    forward.apply_data_to_controlled(&Vec2::new(9, 8), &mut controlled, &mut up, &env);
    assert_eq!(controlled, Vec2::new(1, 9));
    let mut change = None;
    forward.append_change_required(&Vec2::new(0, 100), &Vec2::new(9, 8), &mut change, &env);
    assert_eq!(change, None);
    let mut data = Vec2::new(9, 8);
    let mut ev = event_ctx();
    forward.apply_change_to_data(&controlled, &mut data, (), &mut ev, &env);
    assert_eq!(data, Vec2::new(9, 8));

    let back: WidgetToDataOnlyBinding<LensBinding<Vec2, Vec2, i64, Vec2X, Vec2Y>> =
        LensBinding::new(Vec2X, Vec2Y).back();
    let mut controlled = Vec2::new(1, 2);
    back.apply_data_to_controlled(&Vec2::new(9, 8), &mut controlled, &mut up, &env);
    assert_eq!(controlled, Vec2::new(1, 2));
    let mut change = None;
    back.append_change_required(&controlled, &Vec2::new(9, 8), &mut change, &env);
    assert_eq!(change, Some(2));
    back.apply_change_to_data(&controlled, &mut data, 2, &mut ev, &env);
    assert_eq!(data, Vec2::new(2, 8));
}

#[test]
fn a_pair_of_bindings_is_one_binding() {
    let env = Env::new();
    let pair = (LensBinding::new(Vec2X, Vec2X), LensBinding::new(Vec2Y, Vec2Y));
    let controlled = Vec2::new(1, 2);
    let mut data = Vec2::new(1, 5);
    let mut change = None;
    pair.append_change_required(&controlled, &data, &mut change, &env);
    assert_eq!(change, Some((None, Some(2))));
    let mut ctx = event_ctx();
    pair.apply_change_to_data(&controlled, &mut data, change.unwrap(), &mut ctx, &env);
    assert_eq!(data, Vec2::new(1, 2));
    let mut change = Some((Some(7), None));
    pair.append_change_required(&controlled, &data, &mut change, &env);
    assert_eq!(change, None);
    let mut target = Vec2::new(0, 0);
    let mut up = update_ctx();
    pair.apply_data_to_controlled(&data, &mut target, &mut up, &env);
    assert_eq!(target, Vec2::new(1, 2));
}

#[test]
fn scroll_offset_follows_into_the_data_within_the_event() {
    let env = Env::theme();
    let mut ids = IdSource::new();
    let mut data = Vec2::new(0, 0);
    let scroll = scroll(&mut ids, &env, &data);
    let mut host = scroll.binding(offsets());
    // the view is dragged down by 50
    let mut ctx = event_ctx();
    host.event(&mut ctx, &wheel(0, 50), &mut data, &env);
    assert_eq!(host.contained.offset(), Vec2::new(0, 50));
    assert_eq!(data, Vec2::new(0, 50));
    assert!(host.pending_change.is_none());
    // the update pass that follows finds nothing to do
    let mut up = update_ctx();
    host.update(&mut up, &Vec2::new(0, 0), &data, &env);
    assert_eq!(host.contained.offset(), Vec2::new(0, 50));
    assert!(host.pending_change.is_none());
    assert!(up.commands.is_empty());
}

#[test]
fn data_wins_in_the_update_pass() {
    let env = Env::theme();
    let mut ids = IdSource::new();
    let data = Vec2::new(0, 0);
    let scroll = scroll(&mut ids, &env, &data);
    let mut host = BindingHost::new(scroll, offsets());
    let mut up = update_ctx();
    host.update(&mut up, &data, &Vec2::new(20, 30), &env);
    assert_eq!(host.contained.offset(), Vec2::new(20, 30));
    assert!(up.requests.paint);
    assert!(host.pending_change.is_none());
    // a value beyond the content is held back by the container, and the
    // difference is left pending for the next event phase
    let mut up = update_ctx();
    host.update(&mut up, &Vec2::new(20, 30), &Vec2::new(20, 1000), &env);
    assert_eq!(host.contained.offset(), Vec2::new(20, 300));
    assert!(host.pending_change.is_some());
    assert_eq!(up.commands.len(), 1);
    assert!(up.commands[0].is(APPLY_BINDINGS));
    assert_eq!(up.commands[0].target, Target::Widget(WidgetId(1000)));
    // the host's own command gives it the round in which the data follows
    let mut data = Vec2::new(20, 1000);
    let mut ctx = event_ctx();
    let command = Event::Command(Command::new(APPLY_BINDINGS, Target::Widget(WidgetId(1000))));
    host.event(&mut ctx, &command, &mut data, &env);
    assert_eq!(data, Vec2::new(20, 300));
    assert!(ctx.is_handled());
    assert!(host.pending_change.is_none());
}

#[test]
fn other_phases_defer_the_change() {
    let env = Env::theme();
    let mut ids = IdSource::new();
    let data = Vec2::new(0, 0);
    let mut inner = scroll(&mut ids, &env, &data);
    inner.scroll_by(Vec2::new(10, 0));
    let mut host = BindingHost::new(inner, offsets());
    let mut lay = LayoutCtx::new(frame());
    let bc = BoxConstraints::new(Size::new(0, 0), Size::new(100, 100));
    host.layout(&mut lay, &bc, &data, &env);
    assert!(host.pending_change.is_some());
    assert_eq!(lay.commands.len(), 1);
    let mut paint = PaintCtx::new(frame());
    host.paint(&mut paint, &data, &env);
    assert!(!paint.ops.is_empty());
    let mut lc = LifeCycleCtx::new(frame(), IdSource::starting_at(700));
    host.lifecycle(&mut lc, &LifeCycle::Internal(0), &data, &env);
    assert_eq!(lc.commands.len(), 1);
    assert!(host.check_for_changes(&data, &env));
    let mut changed = data;
    let mut ctx = event_ctx();
    host.apply_pending_changes(&mut ctx, &mut changed, &env);
    assert_eq!(changed, Vec2::new(10, 0));
    assert!(!host.check_for_changes(&changed, &env));
}

#[test]
fn identity_lens_binds_whole_values() {
    let env = Env::new();
    let binding: LensBinding<i64, i64, i64, Identity, Identity> = Identity.bind_lens(Identity);
    let mut change = None;
    binding.append_change_required(&4, &5, &mut change, &env);
    assert_eq!(change, Some(4));
    let _ = Rect::zero();
}
