use druid::context::{Env, EventCtx, Frame, LayoutCtx, LifeCycleCtx, PaintCtx, PaintOp};
use druid::event::{Command, Event, IdSource, KeyEvent, LifeCycle, MouseEvent, Target, TimerToken, WidgetId};
use druid::geometry::{Axis, BoxConstraints, CrossAxisAlignment, Point, Rect, Size, Vec2};
use druid::label::Label;
use druid::tab_bar::{turned_size, unturned, BarMaker, Rotated, TabBar, TabLabel, TabOrientation};
use druid::tab_body::{
    ensure_for_tabs, hidden_should_receive_event, hidden_should_receive_lifecycle, BodyMaker,
    TabsBody, TabsTransition,
};
use druid::tab_policy::{
    default_tabs_changed, AddTab, InitialTab, NumberedTabs, STabKey, StaticTabs, TabInfo,
    TabsFromData, TabsScopePolicy, TabsState, TabsTransfer,
};
use druid::scope::{ScopePolicy, ScopeTransfer};
use druid::widget::{Pod, Widget};

fn frame() -> Frame {
    Frame::of(WidgetId(5000))
}

fn state(count: u64, selected: usize) -> TabsState<NumberedTabs> {
    TabsState::new(count, selected, NumberedTabs)
}

fn laid_out_bar(count: u64) -> (TabBar<NumberedTabs>, TabsState<NumberedTabs>) {
    let env = Env::theme();
    let data = state(count, 0);
    let mut bar = TabBar::new(Axis::Horizontal, CrossAxisAlignment::Start, TabOrientation::Standard);
    let mut lc = LifeCycleCtx::new(frame(), IdSource::new());
    bar.lifecycle(&mut lc, &LifeCycle::WidgetAdded, &data, &env);
    let mut lay = LayoutCtx::new(frame());
    let bc = BoxConstraints::new(Size::new(0, 0), Size::new(1000, 100));
    assert_eq!(bar.layout(&mut lay, &bc, &data, &env), Size::new(1000, 30));
    (bar, data)
}

#[test]
fn the_first_label_whose_far_edge_reaches_the_position_is_hit() {
    let (bar, _) = laid_out_bar(3);
    // closable labels are 118 wide: far edges at 118, 236, 354
    assert_eq!(bar.find_idx(Point::new(0, 5)), Some(0));
    assert_eq!(bar.find_idx(Point::new(117, 5)), Some(0));
    assert_eq!(bar.find_idx(Point::new(118, 5)), Some(0));
    assert_eq!(bar.find_idx(Point::new(119, 5)), Some(1));
    assert_eq!(bar.find_idx(Point::new(236, 5)), Some(1));
    assert_eq!(bar.find_idx(Point::new(354, 5)), Some(2));
    assert_eq!(bar.find_idx(Point::new(355, 5)), None);
    assert_eq!(bar.find_idx(Point::new(-50, 5)), Some(0));
    let empty: TabBar<NumberedTabs> =
        TabBar::new(Axis::Horizontal, CrossAxisAlignment::Start, TabOrientation::Standard);
    assert_eq!(empty.find_idx(Point::new(0, 0)), None);
}

#[test]
fn labels_are_laid_out_one_behind_the_other() {
    let (bar, _) = laid_out_bar(3);
    let rects: Vec<Rect> =
        bar.tabs.iter().map(|slot| slot.1.as_ref().unwrap().layout_rect()).collect();
    assert_eq!(
        rects,
        vec![Rect::new(0, 0, 118, 30), Rect::new(118, 0, 236, 30), Rect::new(236, 0, 354, 30)]
    );
}

#[test]
fn the_bar_tracks_the_label_under_the_pointer() {
    let env = Env::theme();
    let (mut bar, mut data) = laid_out_bar(3);
    let mut ctx = EventCtx::new(frame(), IdSource::starting_at(100));
    let over = Event::MouseMove(MouseEvent::at(Point::new(130, 5)));
    // the bar is not hot: nothing is under the pointer
    bar.event(&mut ctx, &over, &mut data, &env);
    assert_eq!(bar.hot, None);
    assert!(!ctx.requests.paint);
    ctx.frame.is_hot = true;
    bar.event(&mut ctx, &over, &mut data, &env);
    assert_eq!(bar.hot, Some(1));
    assert!(ctx.requests.paint);
    assert_eq!(data.selected, 0);
}

#[test]
fn the_bar_paints_grounds_labels_and_the_mark_of_the_selected() {
    let env = Env::theme();
    let (mut bar, mut data) = laid_out_bar(2);
    data.selected = 1;
    bar.hot = Some(0);
    let mut paint = PaintCtx::new(frame());
    bar.paint(&mut paint, &data, &env);
    let fills: Vec<i64> = paint
        .ops
        .iter()
        .filter_map(|op| match op {
            PaintOp::Fill { colour, .. } => Some(*colour),
            _ => None,
        })
        .collect();
    assert_eq!(
        fills,
        vec![druid::context::THEME_BUTTON_DARK, druid::context::THEME_BACKGROUND_LIGHT]
    );
    let lines: Vec<(Point, Point)> = paint
        .ops
        .iter()
        .filter_map(|op| match op {
            PaintOp::StrokeLine { from, to, .. } => Some((*from, *to)),
            _ => None,
        })
        .collect();
    assert_eq!(lines, vec![(Point::new(118, 29), Point::new(236, 29))]);
    let marks = paint.ops.iter().filter(|op| matches!(op, PaintOp::CloseMark { .. })).count();
    assert_eq!(marks, 2);
}

#[test]
fn hidden_tabs_hear_commands_but_no_input() {
    let m = MouseEvent::at(Point::zero());
    assert!(hidden_should_receive_event(&Event::WindowConnected));
    assert!(hidden_should_receive_event(&Event::WindowSize(Size::zero())));
    assert!(hidden_should_receive_event(&Event::Timer(TimerToken(1))));
    assert!(hidden_should_receive_event(&Event::Command(Command::new(1, Target::Global))));
    assert!(hidden_should_receive_event(&Event::Internal(0)));
    assert!(!hidden_should_receive_event(&Event::MouseDown(m)));
    assert!(!hidden_should_receive_event(&Event::MouseUp(m)));
    assert!(!hidden_should_receive_event(&Event::MouseMove(m)));
    assert!(!hidden_should_receive_event(&Event::Wheel(m)));
    assert!(!hidden_should_receive_event(&Event::KeyDown(KeyEvent { code: 0 })));
    assert!(!hidden_should_receive_event(&Event::KeyUp(KeyEvent { code: 0 })));
    assert!(!hidden_should_receive_event(&Event::Paste("x".to_string())));
    assert!(!hidden_should_receive_event(&Event::Zoom(1)));
    assert!(hidden_should_receive_lifecycle(&LifeCycle::WidgetAdded));
    assert!(hidden_should_receive_lifecycle(&LifeCycle::Internal(0)));
    assert!(!hidden_should_receive_lifecycle(&LifeCycle::Size(Size::zero())));
    assert!(!hidden_should_receive_lifecycle(&LifeCycle::AnimFrame(1)));
    assert!(!hidden_should_receive_lifecycle(&LifeCycle::HotChanged(true)));
    assert!(!hidden_should_receive_lifecycle(&LifeCycle::FocusChanged(true)));
}

#[test]
fn a_slide_moves_both_bodies_in_step() {
    let mut slide = TabsTransition::new(0, 1000, true);
    assert!(slide.live());
    assert_eq!(slide.progress(200), 0);
    assert_eq!(slide.previous_transform(Axis::Horizontal, 200), Vec2::new(0, 0));
    assert_eq!(slide.selected_transform(Axis::Horizontal, 200), Vec2::new(200, 0));
    slide = slide.advanced(250);
    assert_eq!(slide.progress(200), 50);
    assert_eq!(slide.previous_transform(Axis::Horizontal, 200), Vec2::new(-50, 0));
    assert_eq!(slide.selected_transform(Axis::Horizontal, 200), Vec2::new(150, 0));
    assert_eq!(slide.previous_transform(Axis::Vertical, 200), Vec2::new(0, -50));
    // rounding is downwards
    assert_eq!(slide.progress(3), 0);
    assert_eq!(slide.progress(7), 1);
    slide = slide.advanced(750);
    assert!(!slide.live());
    assert_eq!(slide.progress(200), 200);
    assert_eq!(slide.selected_transform(Axis::Horizontal, 200), Vec2::new(0, 0));
    let back = TabsTransition::new(3, 1000, false).advanced(250);
    assert_eq!(back.previous_transform(Axis::Horizontal, 200), Vec2::new(50, 0));
    assert_eq!(back.selected_transform(Axis::Horizontal, 200), Vec2::new(-150, 0));
    assert_eq!(TabsTransition::new(0, 10, true).advanced(u64::MAX).advanced(5).current_time, u64::MAX);
    assert_eq!(back.progress(-5), 0);
}

#[test]
fn orientation_turns_labels_along_the_bar() {
    let label = || Label::new("x".to_string());
    let std = TabOrientation::Standard;
    assert_eq!(std.rotate_and_box(label(), Axis::Horizontal, CrossAxisAlignment::Start).turns, 0);
    assert_eq!(std.rotate_and_box(label(), Axis::Horizontal, CrossAxisAlignment::End).turns, 0);
    assert_eq!(std.rotate_and_box(label(), Axis::Vertical, CrossAxisAlignment::Start).turns, 3);
    assert_eq!(std.rotate_and_box(label(), Axis::Vertical, CrossAxisAlignment::End).turns, 1);
    assert_eq!(std.rotate_and_box(label(), Axis::Vertical, CrossAxisAlignment::Center).turns, 1);
    let fixed = TabOrientation::Turns(2);
    assert_eq!(fixed.rotate_and_box(label(), Axis::Horizontal, CrossAxisAlignment::Start).turns, 2);
}

#[test]
fn turned_widgets_swap_their_sides() {
    let env = Env::theme();
    assert_eq!(turned_size(Size::new(3, 9), 1), Size::new(9, 3));
    assert_eq!(turned_size(Size::new(3, 9), 2), Size::new(3, 9));
    assert_eq!(unturned(Point::new(2, 1), 0, Size::new(10, 4)), Point::new(2, 1));
    assert_eq!(unturned(Point::new(1, 2), 1, Size::new(10, 4)), Point::new(2, 3));
    assert_eq!(unturned(Point::new(2, 1), 2, Size::new(10, 4)), Point::new(8, 3));
    assert_eq!(unturned(Point::new(1, 2), 3, Size::new(10, 4)), Point::new(8, 1));
    let mut turned = Rotated::new(Label::new("x".to_string()).with_size(Size::new(40, 10)), 1);
    let mut lay = LayoutCtx::new(frame());
    let bc = BoxConstraints::new(Size::new(0, 0), Size::new(100, 20));
    // the label is laid out in a box of 20 by 100 and turned
    assert_eq!(Widget::<u64>::layout(&mut turned, &mut lay, &bc, &0, &env), Size::new(10, 20));
    let mut paint = PaintCtx::new(frame());
    Widget::<u64>::paint(&mut turned, &mut paint, &0, &env);
    assert!(matches!(paint.ops[0], PaintOp::Save));
    assert!(matches!(paint.ops[1], PaintOp::QuarterTurns(1)));
    assert!(matches!(paint.ops[3], PaintOp::Restore));
    let mut upright = Rotated::new(Label::new("x".to_string()), 4);
    let mut paint = PaintCtx::new(frame());
    Widget::<u64>::paint(&mut upright, &mut paint, &0, &env);
    assert_eq!(paint.ops.len(), 1);
}

#[test]
fn ensure_for_tabs_reuses_by_key() {
    let mut ids = IdSource::new();
    let mut slots: Vec<(u64, Option<Pod<u64, Label>>)> = Vec::new();
    let kept = ensure_for_tabs(&mut slots, &NumberedTabs, 3, &3, &BodyMaker, &mut ids);
    assert!(kept.is_empty());
    assert_eq!(slots.iter().map(|s| s.0).collect::<Vec<_>>(), vec![0, 1, 2]);
    let first: Vec<WidgetId> = slots.iter().map(|s| s.1.as_ref().unwrap().id()).collect();
    let kept = ensure_for_tabs(&mut slots, &NumberedTabs, 4, &4, &BodyMaker, &mut ids);
    assert_eq!(kept, vec![0, 1, 2]);
    let second: Vec<WidgetId> = slots.iter().map(|s| s.1.as_ref().unwrap().id()).collect();
    assert_eq!(&second[..3], &first[..]);
    assert!(!first.contains(&second[3]));
    let kept = ensure_for_tabs(&mut slots, &NumberedTabs, 1, &1, &BodyMaker, &mut ids);
    assert_eq!(kept, vec![0]);
    assert_eq!(slots.len(), 1);

    let maker = BarMaker {
        orientation: TabOrientation::Standard,
        axis: Axis::Vertical,
        cross: CrossAxisAlignment::Start,
    };
    let mut labels = Vec::new();
    ensure_for_tabs(&mut labels, &NumberedTabs, 2, &2, &maker, &mut ids);
    assert_eq!(labels.len(), 2);
    let label = labels[1].1.as_ref().unwrap();
    assert_eq!(label.inner.turns, 3);
    assert_eq!(label.inner.inner.key, 1);
    assert_eq!(label.inner.inner.name, "Dynamic tab");
    assert!(label.inner.inner.can_close);
}

#[test]
fn the_body_makes_tabs_and_finds_the_active_child() {
    let mut ids = IdSource::new();
    let mut body: TabsBody<NumberedTabs> = TabsBody::new(Axis::Horizontal);
    let data = state(2, 1);
    let kept = body.make_tabs(&data, 2, &mut ids);
    assert!(kept.is_empty());
    assert_eq!(body.children.len(), 2);
    let second = body.children[1].1.as_ref().unwrap().id();
    assert_eq!(body.active_child(&data).unwrap().id(), second);
    assert!(body.active_child(&state(2, 7)).is_none());
    assert!(TabsBody::<NumberedTabs>::child(&mut body.children, 2).is_none());
    assert_eq!(TabsBody::<NumberedTabs>::child(&mut body.children, 0).unwrap().id(), WidgetId(0));

    let given: TabsBody<StaticTabs<u64, Label>> = TabsBody::with_bodies(
        &mut ids,
        Axis::Vertical,
        vec![(4, Label::new("a".to_string())), (9, Label::new("b".to_string()))],
    );
    assert_eq!(given.children.iter().map(|s| s.0).collect::<Vec<_>>(), vec![4, 9]);
    assert_eq!(given.axis, Axis::Vertical);
}

#[test]
fn a_body_without_a_selected_tab_takes_the_largest_size() {
    let env = Env::theme();
    let mut body: TabsBody<NumberedTabs> = TabsBody::new(Axis::Horizontal);
    let mut lay = LayoutCtx::new(frame());
    let bc = BoxConstraints::new(Size::new(1, 1), Size::new(50, 60));
    assert_eq!(body.layout(&mut lay, &bc, &state(0, 4), &env), Size::new(50, 60));
    let mut paint = PaintCtx::new(frame());
    body.paint(&mut paint, &state(0, 4), &env);
    assert!(paint.ops.is_empty());
}

#[test]
fn the_transfer_keeps_data_in_step_and_the_selection_valid() {
    let env = Env::new();
    let transfer: TabsTransfer<NumberedTabs> = TabsTransfer::new();
    let mut s = state(5, 4);
    transfer.read_input(&mut s, &3, &env);
    assert_eq!(s.inner, 3);
    assert_eq!(s.selected, 4);
    let old = state(5, 4);
    assert!(transfer.update_computed(&old, &mut s, &env));
    assert_eq!(s.selected, 2);
    assert!(!transfer.update_computed(&old, &mut s, &env));
    let mut none = state(0, 4);
    assert!(!transfer.update_computed(&old, &mut none, &env));
    assert_eq!(none.selected, 4);
    let mut input = 9u64;
    transfer.write_back_input(&s, &mut input);
    assert_eq!(input, 3);
    assert_eq!(s.keys(), vec![0, 1, 2]);

    let (made, _) = TabsScopePolicy::new(NumberedTabs, 1).create(&6, &env);
    assert_eq!(made.inner, 6);
    assert_eq!(made.selected, 1);
}

#[test]
fn policies_derive_tabs_from_data() {
    assert_eq!(NumberedTabs.tabs(&4), 4);
    assert_eq!(NumberedTabs.tabs_changed(&4, &4), None);
    assert_eq!(NumberedTabs.tabs_changed(&4, &5), Some(5));
    assert_eq!(default_tabs_changed(&NumberedTabs, &4, &5), Some(5));
    assert_eq!(default_tabs_changed(&NumberedTabs, &4, &4), None);
    assert_eq!(NumberedTabs.keys_from_set(3, &3), vec![0, 1, 2]);
    let mut data = 3u64;
    NumberedTabs.close_tab(1, &mut data);
    assert_eq!(data, 2);
    let mut none = 0u64;
    NumberedTabs.close_tab(0, &mut none);
    assert_eq!(none, 0);
    assert_eq!(NumberedTabs.body_from_key(0, &3).unwrap().text, "Dynamic tab body");
    let info = TabInfo::new("n".to_string(), true);
    assert!(info.can_close);
    assert_eq!(STabKey(3).key(), 3);

    let mut build: Vec<InitialTab<Label>> = Vec::new();
    <StaticTabs<u64, Label> as AddTab>::add_tab(&mut build, "One".to_string(), Label::new("1".to_string()));
    build.push(InitialTab::new("Two".to_string(), Label::new("2".to_string())));
    let (policy, bodies) = <StaticTabs<u64, Label> as TabsFromData>::build(build);
    assert_eq!(policy.names.len(), 2);
    assert_eq!(bodies.iter().map(|b| b.0).collect::<Vec<_>>(), vec![0, 1]);
    assert_eq!(bodies[1].1.text, "2");
    let empty: StaticTabs<u64, Label> = StaticTabs::new();
    assert_eq!(empty.keys_from_set(0, &0), Vec::<u64>::new());
    let label: TabLabel<NumberedTabs> = TabLabel::new(3, TabInfo::new("t".to_string(), false));
    assert_eq!(label.key, 3);
}
