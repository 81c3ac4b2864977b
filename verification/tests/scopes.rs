use druid::context::{Env, EventCtx, Frame, LayoutCtx, LifeCycleCtx, PaintCtx, UpdateCtx};
use druid::event::{Event, IdSource, LifeCycle, MouseEvent, WidgetId};
use druid::geometry::{BoxConstraints, Point, Rect, Size};
use druid::label::ClickCounter;
use druid::lens::Vec2X;
use druid::lens_wrap::LensWrap;
use druid::scope::{
    DefaultScopePolicy, IsolatedScopePolicy, LensScopeTransfer, Scope, ScopeContent, ScopePolicy,
    ScopeTransfer,
};
use druid::geometry::Vec2;
use druid::widget::Widget;

fn frame() -> Frame {
    Frame::of(WidgetId(1000))
}

fn make_state(input: i64) -> Vec2 {
    Vec2::new(input, 77)
}

type Inner = LensWrap<i64, Vec2X, ClickCounter>;

fn inner() -> Inner {
    LensWrap::new(ClickCounter::new(Size::new(10, 10)), Vec2X)
}

#[test]
fn transfer_reads_in_and_writes_back() {
    let env = Env::new();
    let transfer: LensScopeTransfer<Vec2X, i64, Vec2> = LensScopeTransfer::new(Vec2X);
    let mut state = Vec2::new(1, 2);
    transfer.read_input(&mut state, &5, &env);
    assert_eq!(state, Vec2::new(5, 2));
    let mut input = 0i64;
    transfer.write_back_input(&state, &mut input);
    assert_eq!(input, 5);
    let old = state;
    assert!(!transfer.update_computed(&old, &mut state, &env));
    assert_eq!(state, old);
}

#[test]
fn writing_back_twice_changes_nothing_more() {
    let transfer: LensScopeTransfer<Vec2X, i64, Vec2> = LensScopeTransfer::new(Vec2X);
    let state = Vec2::new(9, 2);
    let mut input = 3i64;
    transfer.write_back_input(&state, &mut input);
    let once = input;
    transfer.write_back_input(&state, &mut input);
    assert_eq!(input, once);
    assert_eq!(input, 9);
}

#[test]
fn default_policy_makes_the_state_from_the_input() {
    let env = Env::new();
    let policy = DefaultScopePolicy::from_lens(make_state, Vec2X);
    let (state, transfer) = policy.create(&4, &env);
    assert_eq!(state, Vec2::new(4, 77));
    let mut back = 0i64;
    transfer.write_back_input(&state, &mut back);
    assert_eq!(back, 4);
    let policy = DefaultScopePolicy::new(make_state, LensScopeTransfer::new(Vec2X));
    let (state, _) = policy.create(&6, &env);
    assert_eq!(state, Vec2::new(6, 77));
}

#[test]
fn isolated_policy_keeps_its_state_apart() {
    let env = Env::new();
    let policy: IsolatedScopePolicy<i64, Vec2> = IsolatedScopePolicy::new(Vec2::new(1, 1));
    let (mut state, transfer) = policy.create(&50, &env);
    assert_eq!(state, Vec2::new(1, 1));
    transfer.read_input(&mut state, &60, &env);
    assert_eq!(state, Vec2::new(1, 1));
    let mut input = 60i64;
    transfer.write_back_input(&state, &mut input);
    assert_eq!(input, 60);
    assert!(!transfer.update_computed(&Vec2::new(0, 0), &mut state, &env));
}

#[test]
fn a_scope_makes_its_state_on_first_use() {
    let env = Env::new();
    let mut ids = IdSource::new();
    let mut scope = Scope::from_lens(&mut ids, make_state, Vec2X, inner());
    assert!(scope.state().is_none());
    assert!(scope.state_mut().is_none());
    assert!(matches!(scope.content, ScopeContent::Policy { .. }));
    let mut lc = LifeCycleCtx::new(frame(), IdSource::starting_at(100));
    scope.lifecycle(&mut lc, &LifeCycle::WidgetAdded, &3, &env);
    assert_eq!(scope.state(), Some(&Vec2::new(3, 77)));
    assert!(scope.inner.is_added());
    *scope.state_mut().unwrap() = Vec2::new(3, 78);
    assert_eq!(scope.state(), Some(&Vec2::new(3, 78)));
}

#[test]
fn a_scope_reads_in_before_the_event_and_asks_for_update() {
    let env = Env::new();
    let mut ids = IdSource::new();
    let mut scope = Scope::from_lens(&mut ids, make_state, Vec2X, inner());
    let mut lc = LifeCycleCtx::new(frame(), IdSource::starting_at(100));
    scope.lifecycle(&mut lc, &LifeCycle::WidgetAdded, &3, &env);
    scope.inner.set_layout_rect(Rect::new(0, 0, 10, 10));

    // the input changed outside; the event phase takes it in first
    let mut data = 8i64;
    let mut ctx = EventCtx::new(frame(), IdSource::starting_at(200));
    scope.event(
        &mut ctx,
        &Event::MouseDown(MouseEvent::at(Point::new(1, 1))),
        &mut data,
        &env,
    );
    assert_eq!(scope.state(), Some(&Vec2::new(8, 77)));
    assert_eq!(scope.inner.inner.inner.clicks(), 1);
    assert_eq!(data, 8);
    assert!(ctx.requests.update);
    assert!(ctx.requests.paint);
}

#[test]
fn a_scope_writes_changes_of_the_state_back() {
    let env = Env::new();
    let mut ids = IdSource::new();
    let mut scope = Scope::from_lens(&mut ids, make_state, Vec2X, inner());
    let mut lc = LifeCycleCtx::new(frame(), IdSource::starting_at(100));
    scope.lifecycle(&mut lc, &LifeCycle::WidgetAdded, &3, &env);
    *scope.state_mut().unwrap() = Vec2::new(30, 77);
    let mut data = 3i64;
    assert!(scope.update_computed_and_write_back(&mut data, &env));
    assert_eq!(data, 30);
    // the snapshot catches up in the update pass; then nothing is left to write
    let mut up = UpdateCtx::new(frame(), IdSource::starting_at(300));
    scope.update(&mut up, &3, &30, &env);
    assert_eq!(scope.inner.old_data(), &Some(Vec2::new(30, 77)));
    let mut again = 30i64;
    assert!(!scope.update_computed_and_write_back(&mut again, &env));
    assert_eq!(again, 30);
}

#[test]
fn a_scope_lays_out_and_paints_its_inner_widget() {
    let env = Env::theme();
    let mut ids = IdSource::new();
    let mut scope = Scope::isolate(&mut ids, 5i64, ClickCounter::new(Size::new(10, 10)));
    let unit = ();
    let mut lc = LifeCycleCtx::new(frame(), IdSource::starting_at(100));
    scope.lifecycle(&mut lc, &LifeCycle::WidgetAdded, &unit, &env);
    let mut lay = LayoutCtx::new(frame());
    let bc = BoxConstraints::new(Size::new(0, 0), Size::new(100, 100));
    assert_eq!(scope.layout(&mut lay, &bc, &unit, &env), Size::new(10, 10));
    assert_eq!(scope.inner.layout_rect(), Rect::new(0, 0, 10, 10));
    let mut paint = PaintCtx::new(frame());
    scope.paint(&mut paint, &unit, &env);
    assert_eq!(paint.ops.len(), 1);
    assert_eq!(scope.state(), Some(&5));
}

#[test]
fn scopes_from_functions_and_policies() {
    let env = Env::new();
    let mut ids = IdSource::new();
    let mut a = Scope::from_function(&mut ids, make_state, LensScopeTransfer::new(Vec2X), inner());
    a.with_state(false, &2, &env);
    assert_eq!(a.state(), Some(&Vec2::new(2, 77)));
    a.with_state(true, &4, &env);
    assert_eq!(a.state(), Some(&Vec2::new(4, 77)));
    a.with_state(false, &6, &env);
    assert_eq!(a.state(), Some(&Vec2::new(4, 77)));
    let mut b = Scope::new(&mut ids, DefaultScopePolicy::from_lens(make_state, Vec2X), inner());
    b.with_state_mut(&1, &env);
    assert_eq!(b.state(), Some(&Vec2::new(1, 77)));
}

#[test]
fn a_lens_wrap_shows_its_widget_a_part_of_the_data() {
    use_stepper();
}

fn use_stepper() {
    let env = Env::theme();
    let mut wrapped = LensWrap::new(druid::label::Stepper::new(3, Size::new(5, 5)), Vec2X);
    let mut data = Vec2::new(10, 20);
    let mut ctx = EventCtx::new(frame(), IdSource::new());
    wrapped.event(
        &mut ctx,
        &Event::MouseDown(MouseEvent::at(Point::new(1, 1))),
        &mut data,
        &env,
    );
    assert_eq!(data, Vec2::new(13, 20));
    // a change of the rest of the data passes the widget by
    let mut up = UpdateCtx::new(frame(), IdSource::new());
    wrapped.update(&mut up, &Vec2::new(13, 20), &Vec2::new(13, 99), &env);
    assert!(!up.requests.paint);
    wrapped.update(&mut up, &Vec2::new(13, 20), &Vec2::new(14, 20), &env);
    assert!(up.requests.paint);
    assert_eq!(wrapped.wrapped().step, 3);
}
