use druid::context::{
    Env, EventCtx, Frame, LayoutCtx, LifeCycleCtx, PaintCtx, PaintOp, UpdateCtx,
};
use druid::event::{
    Command, Event, IdSource, KeyEvent, LifeCycle, MouseEvent, Target, WidgetId,
    ROUTE_WIDGET_ADDED,
};
use druid::geometry::{Axis, BoxConstraints, CrossAxisAlignment, Point, Rect, Size, Vec2};
use druid::label::{ClickCounter, Label};
use druid::tab_bar::TabOrientation;
use druid::tab_body::TRANSITION_NANOS;
use druid::tab_policy::{NumberedTabs, StaticTabs, TabsFromData, TabsState};
use druid::tabs::{Tabs, TabsContent};
use druid::widget::{Pod, Widget};

fn frame() -> Frame {
    Frame::of(WidgetId(5000))
}

fn press(x: i64, y: i64) -> Event {
    Event::MouseDown(MouseEvent::at(Point::new(x, y)))
}

fn texts(ops: &[PaintOp]) -> Vec<String> {
    ops.iter()
        .filter_map(|op| match op {
            PaintOp::Text { text, .. } => Some(text.clone()),
            _ => None,
        })
        .collect()
}

fn translations(ops: &[PaintOp]) -> Vec<Vec2> {
    ops.iter()
        .filter_map(|op| match op {
            PaintOp::Translate(v) => Some(*v),
            _ => None,
        })
        .collect()
}

/// A tab container under a root node, taken through its first notice and
/// a layout in a box of 600 by 300.
struct Harness<TFD: TabsFromData> {
    root: Pod<TFD::T, Tabs<TFD>>,
    env: Env,
    ids: u64,
}

impl<TFD: TabsFromData> Harness<TFD> {
    fn new(tabs: Tabs<TFD>, data: &TFD::T) -> Self {
        let mut ids = IdSource::new();
        let root = Pod::new(&mut ids, tabs);
        let mut this = Harness { root, env: Env::theme(), ids: ids.next };
        this.lifecycle(&LifeCycle::WidgetAdded, data);
        this.layout(data);
        this
    }

    fn lifecycle(&mut self, event: &LifeCycle, data: &TFD::T) -> LifeCycleCtx {
        let mut ctx = LifeCycleCtx::new(frame(), IdSource::starting_at(self.ids));
        self.root.lifecycle(&mut ctx, event, data, &self.env);
        self.ids = ctx.ids.next;
        ctx
    }

    fn layout(&mut self, data: &TFD::T) -> Size {
        let mut ctx = LayoutCtx::new(frame());
        let bc = BoxConstraints::new(Size::new(0, 0), Size::new(600, 300));
        let size = self.root.layout(&mut ctx, &bc, data, &self.env);
        self.root.set_layout_rect(Rect::from_origin_size(Point::zero(), size));
        size
    }

    fn event(&mut self, event: &Event, data: &mut TFD::T) -> EventCtx {
        let mut ctx = EventCtx::new(frame(), IdSource::starting_at(self.ids));
        self.root.event(&mut ctx, event, data, &self.env);
        self.ids = ctx.ids.next;
        ctx
    }

    fn update(&mut self, data: &TFD::T) -> UpdateCtx {
        let mut ctx = UpdateCtx::new(frame(), IdSource::starting_at(self.ids));
        self.root.update(&mut ctx, data, &self.env);
        self.ids = ctx.ids.next;
        ctx
    }

    fn paint(&mut self, data: &TFD::T) -> Vec<PaintOp> {
        let mut ctx = PaintCtx::new(frame());
        self.root.paint(&mut ctx, data, &self.env);
        ctx.ops
    }

    fn state(&self) -> &TabsState<TFD> {
        match &self.root.inner.content {
            TabsContent::Running { scope } => scope.inner.state().unwrap(),
            _ => panic!("the container does not run"),
        }
    }

    fn body_keys(&self) -> Vec<u64> {
        match &self.root.inner.content {
            TabsContent::Running { scope } => {
                scope.inner.inner.inner.body.inner.children.iter().map(|slot| slot.0).collect()
            }
            _ => panic!("the container does not run"),
        }
    }

    fn body_ids(&self) -> Vec<Option<WidgetId>> {
        match &self.root.inner.content {
            TabsContent::Running { scope } => scope
                .inner
                .inner
                .inner
                .body
                .inner
                .children
                .iter()
                .map(|slot| slot.1.as_ref().map(|node| node.id()))
                .collect(),
            _ => panic!("the container does not run"),
        }
    }

    fn joined(&self) -> Vec<bool> {
        match &self.root.inner.content {
            TabsContent::Running { scope } => scope
                .inner
                .inner
                .inner
                .body
                .inner
                .children
                .iter()
                .map(|slot| slot.1.as_ref().map(|node| node.is_added()).unwrap_or(false))
                .collect(),
            _ => panic!("the container does not run"),
        }
    }

    fn label_count(&self) -> usize {
        match &self.root.inner.content {
            TabsContent::Running { scope } => scope.inner.inner.inner.bar.inner.tabs.len(),
            _ => panic!("the container does not run"),
        }
    }
}

fn two_static_tabs() -> Tabs<StaticTabs<u64, Label>> {
    Tabs::new()
        .with_tab("Basic".to_string(), Label::new("basic body".to_string()))
        .with_tab("Advanced".to_string(), Label::new("advanced body".to_string()))
}

#[test]
fn a_container_runs_from_its_first_notice() {
    let tabs = two_static_tabs();
    assert!(matches!(tabs.content, TabsContent::Building { .. }));
    let mut ids = IdSource::new();
    let mut root = Pod::new(&mut ids, tabs);
    let env = Env::theme();
    // before it has joined the tree, it takes the least size and ignores events
    let mut data = 0u64;
    let mut ctx = EventCtx::new(frame(), IdSource::starting_at(10));
    root.inner.event(&mut ctx, &press(1, 1), &mut data, &env);
    let mut lay = LayoutCtx::new(frame());
    let bc = BoxConstraints::new(Size::new(7, 8), Size::new(600, 300));
    assert_eq!(root.inner.layout(&mut lay, &bc, &data, &env), Size::new(7, 8));
    assert!(matches!(root.inner.content, TabsContent::Building { .. }));

    let mut lc = LifeCycleCtx::new(frame(), IdSource::starting_at(10));
    root.lifecycle(&mut lc, &LifeCycle::WidgetAdded, &data, &env);
    assert!(matches!(root.inner.content, TabsContent::Running { .. }));
    assert!(lc.requests.children_changed);
    // a running container takes no more tabs
    assert!(!root.inner.add_tab("Late".to_string(), Label::new("late".to_string())));
}

#[test]
fn static_tabs_show_their_names_and_bodies() {
    let h = Harness::new(two_static_tabs(), &0);
    assert_eq!(h.state().selected, 0);
    assert_eq!(h.body_keys(), vec![0, 1]);
    assert_eq!(h.label_count(), 2);
    let policy = &h.state().tabs_from_data;
    assert_eq!(policy.info_from_key(0, &0).name, "Basic");
    assert_eq!(policy.info_from_key(1, &0).name, "Advanced");
    assert!(!policy.info_from_key(1, &0).can_close);
    assert_eq!(policy.info_from_key(5, &0).name, "");
    assert_eq!(policy.keys_from_set(policy.tabs(&0), &0), vec![0, 1]);
    assert!(policy.tabs_changed(&0, &1).is_none());
    assert!(policy.body_from_key(0, &0).is_none());
}

#[test]
fn a_press_on_the_second_label_selects_the_second_tab() {
    let mut h = Harness::new(two_static_tabs(), &0);
    let mut data = 0u64;
    // before: only the body of the first tab paints
    let shown = texts(&h.paint(&data));
    assert!(shown.contains(&"basic body".to_string()));
    assert!(!shown.contains(&"advanced body".to_string()));

    // labels are 98 wide: the second spans 98..196 along the bar
    let ctx = h.event(&press(120, 10), &mut data);
    assert_eq!(h.state().selected, 1);
    assert!(ctx.requests.update);

    // the update pass starts the slide
    h.update(&data);
    h.layout(&data);
    h.lifecycle(&LifeCycle::AnimFrame(TRANSITION_NANOS / 2), &data);
    let ops = h.paint(&data);
    let shown = texts(&ops);
    assert!(shown.contains(&"basic body".to_string()));
    assert!(shown.contains(&"advanced body".to_string()));
    // half way: one body has moved half out, the other is half in
    let body_width = 600 - 12;
    let moved = translations(&ops);
    assert!(moved.contains(&Vec2::new(-(body_width / 2), 0)));
    assert!(moved.contains(&Vec2::new(body_width - body_width / 2, 0)));

    // once the slide is over, only the body of the selected tab paints
    let tick = h.lifecycle(&LifeCycle::AnimFrame(TRANSITION_NANOS), &data);
    assert!(!tick.requests.anim_frame);
    let shown = texts(&h.paint(&data));
    assert!(!shown.contains(&"basic body".to_string()));
    assert!(shown.contains(&"advanced body".to_string()));
}

#[test]
fn input_reaches_the_selected_body_alone_but_commands_reach_all() {
    let tabs: Tabs<StaticTabs<u64, ClickCounter>> = Tabs::new()
        .with_tab("A".to_string(), ClickCounter::new(Size::new(500, 200)))
        .with_tab("B".to_string(), ClickCounter::new(Size::new(500, 200)));
    let mut h = Harness::new(tabs, &0);
    let mut data = 0u64;
    h.event(&press(100, 100), &mut data);
    let clicks = |h: &Harness<StaticTabs<u64, ClickCounter>>| -> Vec<u64> {
        match &h.root.inner.content {
            TabsContent::Running { scope } => scope
                .inner
                .inner
                .inner
                .body
                .inner
                .children
                .iter()
                .map(|slot| slot.1.as_ref().unwrap().inner.clicks())
                .collect(),
            _ => panic!("the container does not run"),
        }
    };
    assert_eq!(clicks(&h), vec![1, 0]);
    h.event(&Event::KeyDown(KeyEvent { code: 1 }), &mut data);
    h.event(&Event::Command(Command::new(77, Target::Global)), &mut data);
    assert_eq!(clicks(&h), vec![1, 0]);
}

#[test]
fn shrinking_the_tabs_holds_the_selected_place() {
    let mut h = Harness::new(Tabs::of(NumberedTabs), &5);
    assert_eq!(h.body_keys(), vec![0, 1, 2, 3, 4]);
    assert_eq!(h.label_count(), 5);
    let mut data = 5u64;
    // the fifth label spans 4 * 118 .. 5 * 118 along the bar
    h.event(&press(4 * 118 + 10, 10), &mut data);
    assert_eq!(h.state().selected, 4);
    h.update(&data);
    let before = h.body_ids();

    data = 3;
    let ctx = h.update(&data);
    assert!(ctx.requests.children_changed);
    assert_eq!(h.body_keys(), vec![0, 1, 2]);
    assert_eq!(h.label_count(), 3);
    assert_eq!(h.state().selected, 2);
    assert_eq!(h.state().inner, 3);
    // the tabs that stay keep their bodies
    assert_eq!(h.body_ids(), before[..3].to_vec());
    // and nothing goes out of bounds
    assert_eq!(h.layout(&data), Size::new(600, 300));
    h.paint(&data);
    h.lifecycle(&LifeCycle::AnimFrame(TRANSITION_NANOS), &data);
    let shown = texts(&h.paint(&data));
    assert_eq!(shown.iter().filter(|t| *t == "Dynamic tab body").count(), 1);
}

#[test]
fn growing_the_tabs_adds_bodies_and_labels() {
    let mut h = Harness::new(Tabs::of(NumberedTabs), &1);
    let before = h.body_ids();
    let ctx = h.update(&3);
    assert!(ctx.requests.children_changed && ctx.requests.layout);
    assert_eq!(h.body_keys(), vec![0, 1, 2]);
    let after = h.body_ids();
    assert_eq!(after[0], before[0]);
    assert!(after[1].is_some() && after[1] != after[0]);
    assert_eq!(h.label_count(), 3);
    assert_eq!(h.joined(), vec![true, false, false]);
    // the new nodes join with the notice that routes them into the tree
    h.lifecycle(&LifeCycle::Internal(ROUTE_WIDGET_ADDED), &3);
    assert_eq!(h.joined(), vec![true, true, true]);
    // where nothing changed, the notice goes nowhere
    let again = h.lifecycle(&LifeCycle::Internal(ROUTE_WIDGET_ADDED), &3);
    assert!(!again.requests.children_changed);
}

#[test]
fn the_mark_on_a_label_closes_a_tab() {
    let mut h = Harness::new(Tabs::of(NumberedTabs), &3);
    let mut data = 3u64;
    // the mark lies behind the name, 98 units into the label
    h.event(&press(118 + 100, 10), &mut data);
    assert_eq!(data, 2);
    // the press selected the tab as well
    assert_eq!(h.state().selected, 1);
    h.update(&data);
    assert_eq!(h.body_keys(), vec![0, 1]);
}

#[test]
fn the_builders_set_the_shape() {
    let tabs = two_static_tabs()
        .with_axis(Axis::Vertical)
        .with_rotation(TabOrientation::Turns(2))
        .with_cross_axis_alignment(CrossAxisAlignment::End);
    assert_eq!(tabs.axis, Axis::Vertical);
    assert_eq!(tabs.rotation, TabOrientation::Turns(2));
    assert_eq!(tabs.cross, CrossAxisAlignment::End);
    let other = tabs.with_tabs(NumberedTabs);
    assert_eq!(other.axis, Axis::Vertical);
    assert!(matches!(other.content, TabsContent::Complete { .. }));
    let plain: Tabs<StaticTabs<u64, Label>> = Tabs::building(Vec::new());
    assert_eq!(plain.axis, Axis::Horizontal);
    assert_eq!(plain.cross, CrossAxisAlignment::Start);
    assert_eq!(plain.rotation, TabOrientation::Standard);
    let complete = Tabs::with_content(TabsContent::Complete { tabs: NumberedTabs });
    assert!(matches!(complete.content, TabsContent::Complete { .. }));
}

#[test]
fn a_bar_at_the_end_comes_behind_the_body() {
    let tabs = two_static_tabs().with_cross_axis_alignment(CrossAxisAlignment::End);
    let h = Harness::new(tabs, &0);
    match &h.root.inner.content {
        TabsContent::Running { scope } => {
            let layout = &scope.inner.inner.inner;
            assert!(!layout.bar_first);
            assert_eq!(layout.axis, Axis::Vertical);
            assert_eq!(layout.body.layout_rect().origin(), Point::new(6, 6));
            assert!(layout.bar.layout_rect().y0 > layout.body.layout_rect().y0);
        }
        _ => panic!("the container does not run"),
    }
}
