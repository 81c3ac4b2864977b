use druid::binding::{BindingExt, BindingHost, LensBindingExt};
use druid::content::{Content, ContentExt, ForEachContent, StaticContent};
use druid::context::{Env, PaintOp};
use druid::data::DataList;
use druid::list::List;
use druid::event::{Event, IdSource, KeyEvent, LifeCycle, MouseEvent};
use druid::geometry::{Axis, Point, Rect, Size, Vec2};
use druid::label::{ClickCounter, Label, Stepper};
use druid::lens::{Vec2X, Vec2Y};
use druid::scroll::{Scroll, ScrollToProperty};
use druid::tab_policy::NumberedTabs;
use druid::tabs::{Tabs, TabsContent};
use druid::window::Window;

fn press(x: i64, y: i64) -> Event {
    Event::MouseDown(MouseEvent::at(Point::new(x, y)))
}

#[test]
fn a_round_runs_the_phases_in_order() {
    let env = Env::theme();
    let mut window = Window::new(IdSource::new(), Size::new(100, 50), Stepper::new(2, Size::new(10, 10)));
    let mut data = 1i64;
    let joined = window.lifecycle(&LifeCycle::WidgetAdded, &data, &env);
    assert!(window.root.is_added());
    assert!(joined.commands.is_empty());
    // the first round lays out and paints, whatever the event
    let round = window.round(&Event::Internal(0), &mut data, &env);
    assert!(round.layout.is_some());
    assert!(round.paint.is_some());
    assert_eq!(window.root.layout_rect(), Rect::new(0, 0, 100, 50));
    assert_eq!(data, 1);

    // a press changes the data: the update pass sees old and new, and paint follows
    let round = window.round(&press(5, 5), &mut data, &env);
    assert_eq!(data, 3);
    assert!(round.event.requests.paint);
    assert!(round.update.requests.paint);
    assert_eq!(window.root.old_data(), &Some(3));
    assert!(round.joined.is_none());
    assert!(round.layout.is_none());
    let paint = round.paint.unwrap();
    assert!(matches!(paint.ops[3], PaintOp::Fill { .. }));
    assert!(!window.root.state.needs_paint);

    // an event that nobody reacts to leaves nothing to do
    let round = window.round(&Event::KeyDown(KeyEvent { code: 1 }), &mut data, &env);
    assert!(round.layout.is_none() && round.paint.is_none() && round.joined.is_none());
    assert_eq!(data, 3);
}

#[test]
fn a_dragged_scroll_view_reaches_the_data_within_one_round() {
    let env = Env::theme();
    let mut ids = IdSource::new();
    let child = Label::new("tall".to_string()).with_size(Size::new(300, 400));
    let scroll: Scroll<Vec2, Label> = Scroll::new(&mut ids, child);
    let binding = Vec2X
        .bind(ScrollToProperty::new(Axis::Horizontal))
        .and(Vec2Y.bind(ScrollToProperty::new(Axis::Vertical)));
    let host = BindingHost::new(scroll, binding);
    let mut window = Window::new(ids, Size::new(100, 100), host);
    let mut data = Vec2::new(0, 0);
    window.lifecycle(&LifeCycle::WidgetAdded, &data, &env);
    window.round(&Event::Internal(0), &mut data, &env);
    assert_eq!(window.root.inner.contained.child_size(), Size::new(300, 400));

    let drag = Event::Wheel(MouseEvent { pos: Point::new(5, 5), wheel_delta: Vec2::new(0, 50) });
    let round = window.round(&drag, &mut data, &env);
    assert_eq!(window.root.inner.contained.offset(), Vec2::new(0, 50));
    assert_eq!(data, Vec2::new(0, 50));
    assert!(round.event.commands.is_empty());
    assert!(round.update.commands.is_empty());
    // a second round finds nothing left to bring together
    let round = window.round(&Event::Internal(0), &mut data, &env);
    assert_eq!(data, Vec2::new(0, 50));
    assert!(round.event.commands.is_empty());
}

#[test]
fn new_nodes_join_in_the_round_that_makes_them() {
    let env = Env::theme();
    let mut window = Window::new(IdSource::new(), Size::new(600, 300), Tabs::of(NumberedTabs));
    let mut data = 1u64;
    window.lifecycle(&LifeCycle::WidgetAdded, &data, &env);
    window.round(&Event::Internal(0), &mut data, &env);
    let bodies = |window: &Window<u64, Tabs<NumberedTabs>>| -> Vec<bool> {
        match &window.root.inner.content {
            TabsContent::Running { scope } => scope
                .inner
                .inner
                .inner
                .body
                .inner
                .children
                .iter()
                .map(|slot| slot.1.as_ref().unwrap().is_added())
                .collect(),
            _ => panic!("the container does not run"),
        }
    };
    assert_eq!(bodies(&window), vec![true]);
    data = 3;
    let round = window.round(&Event::Internal(0), &mut data, &env);
    assert!(round.update.requests.children_changed);
    assert!(round.joined.is_some());
    assert!(round.layout.is_some());
    assert_eq!(bodies(&window), vec![true, true, true]);
    let _ = ClickCounter::new(Size::zero());
}

fn item_keys(items: &DataList<String>, _env: &Env) -> Vec<u64> {
    (0..items.len() as u64).collect()
}

fn row(_items: &DataList<String>, _env: &Env, _key: u64) -> ClickCounter {
    ClickCounter::new(Size::new(80, 20))
}

fn translates(ops: &[PaintOp]) -> Vec<Vec2> {
    ops.iter()
        .filter_map(|op| match op {
            PaintOp::Translate(v) => Some(*v),
            _ => None,
        })
        .collect()
}

#[test]
fn a_dynamic_list_renders_a_row_for_each_item() {
    let env = Env::theme();
    let rows: ForEachContent<DataList<String>, ClickCounter, (), _, _> =
        ForEachContent::new(item_keys, row);
    let list = List::for_axis_content(Axis::Vertical, rows);
    let mut window = Window::new(IdSource::new(), Size::new(200, 200), list);
    let mut items = DataList::new()
        .push_back("Apple".to_string())
        .push_back("Orange".to_string())
        .push_back("Grape".to_string());
    window.lifecycle(&LifeCycle::WidgetAdded, &items, &env);
    assert_eq!(window.root.inner.content().len(), 3);
    let round = window.round(&Event::Internal(0), &mut items, &env);
    // three rows, one below the other (behind the move of the list itself)
    let moved = translates(&round.paint.unwrap().ops);
    assert_eq!(moved[1..], [Vec2::new(0, 0), Vec2::new(0, 20), Vec2::new(0, 40)]);
    let before: Vec<u64> =
        window.root.inner.content.entries.iter().map(|e| e.1.as_ref().unwrap().pod.id().0).collect();

    // a press on the second row is state of that row
    window.round(&press(5, 25), &mut items, &env);
    assert_eq!(window.root.inner.content.entries[1].1.as_ref().unwrap().pod.inner.widget.clicks, 1);

    items = items.push_back("Plum".to_string());
    let round = window.round(&Event::Internal(0), &mut items, &env);
    assert!(round.update.requests.children_changed);
    assert!(round.joined.is_some());
    let after: Vec<u64> =
        window.root.inner.content.entries.iter().map(|e| e.1.as_ref().unwrap().pod.id().0).collect();
    assert_eq!(after.len(), 4);
    assert_eq!(&after[..3], &before[..]);
    assert_eq!(window.root.inner.content.entries[1].1.as_ref().unwrap().pod.inner.widget.clicks, 1);
    let moved = translates(&round.paint.unwrap().ops);
    assert_eq!(moved.len(), 5);
    assert_eq!(moved[4], Vec2::new(0, 60));
}

#[test]
fn a_list_of_joined_sets_shows_them_end_to_end() {
    let env = Env::theme();
    let mut ids = IdSource::new();
    let header: StaticContent<DataList<String>, ClickCounter, ()> =
        StaticContent::of(&mut ids, ClickCounter::new(Size::new(50, 10)));
    let rows: ForEachContent<DataList<String>, ClickCounter, (), _, _> =
        ForEachContent::new(item_keys, row);
    let list = List::for_axis_content(Axis::Horizontal, header.then(rows));
    let mut window = Window::new(ids, Size::new(500, 50), list);
    let mut items = DataList::new().push_back("a".to_string()).push_back("b".to_string());
    window.lifecycle(&LifeCycle::WidgetAdded, &items, &env);
    let round = window.round(&Event::Internal(0), &mut items, &env);
    let moved = translates(&round.paint.unwrap().ops);
    assert_eq!(moved[1..], [Vec2::new(0, 0), Vec2::new(50, 0), Vec2::new(130, 0)]);
    assert!(window.root.inner.content.has_child(2));
}
