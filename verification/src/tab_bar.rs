//! The bar of a tab container: one label for each tab, laid out in a row
//! or a column, on which a press selects a tab.

use vstd::prelude::*;
use std::marker::PhantomData;
use crate::context::{
    Env, EventCtx, LayoutCtx, LifeCycleCtx, PaintCtx, PaintOp, Requests, UpdateCtx,
    BACKGROUND_DARK, BACKGROUND_LIGHT, BUTTON_DARK, LABEL_COLOR, PRIMARY_LIGHT,
};
use crate::data::Data;
use crate::event::{Event, IdSource, LifeCycle, WidgetId};
use crate::geometry::{
    max_i64, sat_add, sat_sub, saturate, spec_max, Axis, BoxConstraints, CrossAxisAlignment,
    Point, Rect, Size,
};
use crate::chain::{linked, threaded};
use crate::keyed::{distinct, has_key, keys_of};
use crate::stacking::{
    lemma_offsets_prefix, lemma_offsets_rise, lemma_placed_far, spec_measured, spec_offset,
    spec_placed, spec_tallest,
};
use crate::slots::{
    all_heard, all_noted, event_all, lifecycle_all, slots_wf, spec_laid_rect,
};
use crate::tab_body::{ensure_for_tabs, ensured, made_within, TabContentMaker};
use crate::tab_policy::{TabInfo, TabsFromData, TabsState};
use crate::widget::{Pod, PodState, Widget};

verus! {

/// How the labels of the tabs are turned.
#[derive(Clone, Copy, Debug, PartialEq, Eq, Structural)]
pub enum TabOrientation {
    /// As the axis of the bar calls for: upright in a row; in a column,
    /// turned to read along the bar.
    Standard,
    /// By this many quarter turns clockwise.
    Turns(u8),
}

impl TabOrientation {
    /// The quarter turns that a label gets.
    pub open spec fn spec_turns(self, axis: Axis, cross: CrossAxisAlignment) -> u8 {
        match self {
            TabOrientation::Standard => match (axis, cross) {
                (Axis::Horizontal, _) => 0,
                (Axis::Vertical, CrossAxisAlignment::Start) => 3,
                (Axis::Vertical, _) => 1,
            },
            TabOrientation::Turns(turns) => turns,
        }
    }

    /// The widget, turned as this orientation calls for on a bar along
    /// `axis` with the given alignment.
    pub fn rotate_and_box<W>(self, widget: W, axis: Axis, cross: CrossAxisAlignment) -> (r: Rotated<
        W,
    >)
        ensures
            r.inner == widget,
            r.turns == self.spec_turns(axis, cross),
    {
        let turns = match self {
            TabOrientation::Standard => match (axis, cross) {
                (Axis::Horizontal, _) => 0,
                (Axis::Vertical, CrossAxisAlignment::Start) => 3,
                (Axis::Vertical, _) => 1,
            },
            TabOrientation::Turns(turns) => turns,
        };
        Rotated { turns, inner: widget }
    }
}

/// A widget turned clockwise by quarter turns. The widget inside is laid
/// out in the turned box and paints on a turned surface; it sees the frame
/// of the box.
pub struct Rotated<W> {
    pub turns: u8,
    pub inner: W,
}

/// The size turned by quarter turns: an odd number swaps the sides.
pub open spec fn spec_turned_size(size: Size, turns: u8) -> Size {
    if turns % 2 == 1 {
        Size { width: size.height, height: size.width }
    } else {
        size
    }
}

/// The constraints turned by quarter turns.
pub open spec fn spec_turned_constraints(bc: &BoxConstraints, turns: u8) -> BoxConstraints {
    BoxConstraints { min: spec_turned_size(bc.min, turns), max: spec_turned_size(bc.max, turns) }
}

/// Where a point of the turned box lies in the box before the turn, whose
/// size is `size`.
pub open spec fn spec_unturned(p: Point, turns: u8, size: Size) -> Point {
    if turns % 4 == 0 {
        p
    } else if turns % 4 == 1 {
        Point { x: p.y, y: saturate(size.height - p.x) }
    } else if turns % 4 == 2 {
        Point { x: saturate(size.width - p.x), y: saturate(size.height - p.y) }
    } else {
        Point { x: saturate(size.width - p.y), y: p.x }
    }
}

pub fn turned_size(size: Size, turns: u8) -> (r: Size)
    ensures
        r == spec_turned_size(size, turns),
{
    if turns % 2 == 1 {
        Size { width: size.height, height: size.width }
    } else {
        size
    }
}

pub fn unturned(p: Point, turns: u8, size: Size) -> (r: Point)
    ensures
        r == spec_unturned(p, turns, size),
{
    let quarter = turns % 4;
    if quarter == 0 {
        p
    } else if quarter == 1 {
        Point { x: p.y, y: sat_sub(size.height, p.x) }
    } else if quarter == 2 {
        Point { x: sat_sub(size.width, p.x), y: sat_sub(size.height, p.y) }
    } else {
        Point { x: sat_sub(size.width, p.y), y: p.x }
    }
}

impl<W> Rotated<W> {
    pub fn new(inner: W, turns: u8) -> (r: Self)
        ensures
            r.inner == inner,
            r.turns == turns,
    {
        Rotated { turns, inner }
    }

    /// The event as the widget inside sees it: the position of a pointer
    /// event is taken back through the turn.
    pub open spec fn spec_seen(turns: u8, size: Size, event: &Event) -> Event {
        match event {
            Event::MouseDown(m) => Event::MouseDown(
                crate::event::MouseEvent { pos: spec_unturned(m.pos, turns, size), ..*m },
            ),
            Event::MouseUp(m) => Event::MouseUp(
                crate::event::MouseEvent { pos: spec_unturned(m.pos, turns, size), ..*m },
            ),
            Event::MouseMove(m) => Event::MouseMove(
                crate::event::MouseEvent { pos: spec_unturned(m.pos, turns, size), ..*m },
            ),
            Event::Wheel(m) => Event::Wheel(
                crate::event::MouseEvent { pos: spec_unturned(m.pos, turns, size), ..*m },
            ),
            _ => *event,
        }
    }

    fn seen(turns: u8, size: Size, event: &Event) -> (r: Option<Event>)
        ensures
            event.spec_pointer() is Some ==> r == Some(Self::spec_seen(turns, size, event)),
            event.spec_pointer() is None ==> r is None && Self::spec_seen(turns, size, event)
                == *event,
    {
        match event {
            Event::MouseDown(m) => Some(
                Event::MouseDown(
                    crate::event::MouseEvent { pos: unturned(m.pos, turns, size), ..*m },
                ),
            ),
            Event::MouseUp(m) => Some(
                Event::MouseUp(crate::event::MouseEvent { pos: unturned(m.pos, turns, size), ..*m }),
            ),
            Event::MouseMove(m) => Some(
                Event::MouseMove(
                    crate::event::MouseEvent { pos: unturned(m.pos, turns, size), ..*m },
                ),
            ),
            Event::Wheel(m) => Some(
                Event::Wheel(crate::event::MouseEvent { pos: unturned(m.pos, turns, size), ..*m }),
            ),
            _ => None,
        }
    }
}

/// One painting on a turned surface, told with the surface `inside` as the
/// widget found it and `mid` as it left it.
pub open spec fn turned_paint_from<T, W: Widget<T>>(
    pre: &Rotated<W>,
    ctx0: &PaintCtx,
    data: &T,
    env: &Env,
    inside: &PaintCtx,
    mid: &PaintCtx,
    post: &Rotated<W>,
    ctx1: &PaintCtx,
) -> bool {
    &&& inside.frame == ctx0.frame
    &&& inside.ops@ == ctx0.ops@.push(PaintOp::Save).push(PaintOp::QuarterTurns(pre.turns % 4))
    &&& W::paint_post(&pre.inner, inside, data, env, &post.inner, mid)
    &&& ctx1.frame == mid.frame
    &&& ctx1.ops@ == mid.ops@.push(PaintOp::Restore)
}

impl<T, W: Widget<T>> Widget<T> for Rotated<W> {
    open spec fn wf(&self) -> bool {
        self.inner.wf()
    }

    open spec fn event_post(
        pre: &Self,
        ctx0: &EventCtx,
        event: &Event,
        data0: &T,
        env: &Env,
        post: &Self,
        ctx1: &EventCtx,
        data1: &T,
    ) -> bool {
        &&& post.turns == pre.turns
        &&& W::event_post(
            &pre.inner,
            ctx0,
            &Self::spec_seen(pre.turns, spec_turned_size(ctx0.frame.size, pre.turns), event),
            data0,
            env,
            &post.inner,
            ctx1,
            data1,
        )
    }

    open spec fn lifecycle_post(
        pre: &Self,
        ctx0: &LifeCycleCtx,
        event: &LifeCycle,
        data: &T,
        env: &Env,
        post: &Self,
        ctx1: &LifeCycleCtx,
    ) -> bool {
        &&& post.turns == pre.turns
        &&& W::lifecycle_post(&pre.inner, ctx0, event, data, env, &post.inner, ctx1)
    }

    open spec fn update_post(
        pre: &Self,
        ctx0: &UpdateCtx,
        old_data: &T,
        data: &T,
        env: &Env,
        post: &Self,
        ctx1: &UpdateCtx,
    ) -> bool {
        &&& post.turns == pre.turns
        &&& W::update_post(&pre.inner, ctx0, old_data, data, env, &post.inner, ctx1)
    }

    /// The widget inside is laid out within the turned constraints, and the
    /// size it takes, turned, is the size of the whole.
    open spec fn layout_post(
        pre: &Self,
        ctx0: &LayoutCtx,
        bc: &BoxConstraints,
        data: &T,
        env: &Env,
        post: &Self,
        ctx1: &LayoutCtx,
        size: Size,
    ) -> bool {
        &&& post.turns == pre.turns
        &&& W::layout_post(
            &pre.inner,
            ctx0,
            &spec_turned_constraints(bc, pre.turns),
            data,
            env,
            &post.inner,
            ctx1,
            spec_turned_size(size, pre.turns),
        )
    }

    /// A widget that is not turned paints as it is. One that is turned
    /// paints on a turned surface, between saving and restoring it.
    open spec fn paint_post(
        pre: &Self,
        ctx0: &PaintCtx,
        data: &T,
        env: &Env,
        post: &Self,
        ctx1: &PaintCtx,
    ) -> bool {
        &&& post.turns == pre.turns
        &&& if pre.turns % 4 == 0 {
            W::paint_post(&pre.inner, ctx0, data, env, &post.inner, ctx1)
        } else {
            exists|inside: PaintCtx, mid: PaintCtx| #[trigger]
                turned_paint_from(pre, ctx0, data, env, &inside, &mid, post, ctx1)
        }
    }

    fn event(&mut self, ctx: &mut EventCtx, event: &Event, data: &mut T, env: &Env) {
        let size = turned_size(ctx.size(), self.turns);
        match Self::seen(self.turns, size, event) {
            Some(moved) => self.inner.event(ctx, &moved, data, env),
            None => self.inner.event(ctx, event, data, env),
        }
    }

    fn lifecycle(&mut self, ctx: &mut LifeCycleCtx, event: &LifeCycle, data: &T, env: &Env) {
        self.inner.lifecycle(ctx, event, data, env)
    }

    fn update(&mut self, ctx: &mut UpdateCtx, old_data: &T, data: &T, env: &Env) {
        self.inner.update(ctx, old_data, data, env)
    }

    fn layout(&mut self, ctx: &mut LayoutCtx, bc: &BoxConstraints, data: &T, env: &Env) -> (size:
        Size) {
        let turned = BoxConstraints {
            min: turned_size(bc.min, self.turns),
            max: turned_size(bc.max, self.turns),
        };
        let inner_size = self.inner.layout(ctx, &turned, data, env);
        turned_size(inner_size, self.turns)
    }

    fn paint(&mut self, ctx: &mut PaintCtx, data: &T, env: &Env) {
        if self.turns % 4 == 0 {
            self.inner.paint(ctx, data, env);
        } else {
            ctx.save();
            ctx.quarter_turns(self.turns % 4);
            let ghost inside = *ctx;
            self.inner.paint(ctx, data, env);
            let ghost mid = *ctx;
            ctx.restore();
            proof {
                assert(turned_paint_from(old(self), old(ctx), data, env, &inside, &mid, self, ctx));
            }
        }
    }
}

/// The width of the name on a tab label, with the room around it.
pub const LABEL_WIDTH: i64 = 98;

/// The height of a tab label.
pub const LABEL_HEIGHT: i64 = 30;

/// The width of the mark that closes a tab.
pub const CLOSE_WIDTH: i64 = 20;

/// The label of one tab: its name and, where the tab can be closed, a mark
/// to the right of the name. A press on the mark closes the tab.
pub struct TabLabel<TFD> {
    pub key: u64,
    pub name: String,
    pub can_close: bool,
    pub phantom: PhantomData<TFD>,
}

impl<TFD: TabsFromData> TabLabel<TFD> {
    pub fn new(key: u64, info: TabInfo) -> (r: Self)
        ensures
            r.key == key,
            r.name == info.name,
            r.can_close == info.can_close,
    {
        TabLabel { key, name: info.name, can_close: info.can_close, phantom: PhantomData }
    }

    /// The size a label asks for.
    pub open spec fn spec_wanted(can_close: bool) -> Size {
        Size {
            width: if can_close {
                (LABEL_WIDTH + CLOSE_WIDTH) as i64
            } else {
                LABEL_WIDTH
            },
            height: LABEL_HEIGHT,
        }
    }

    /// Whether the event is a press on the mark that closes the tab.
    pub open spec fn spec_closes(&self, event: &Event) -> bool {
        &&& self.can_close
        &&& *event is MouseDown
        &&& event.spec_pointer()->0.pos.x >= LABEL_WIDTH
    }
}

impl<TFD: TabsFromData> Widget<TabsState<TFD>> for TabLabel<TFD> {
    open spec fn wf(&self) -> bool {
        true
    }

    open spec fn event_post(
        pre: &Self,
        ctx0: &EventCtx,
        event: &Event,
        data0: &TabsState<TFD>,
        env: &Env,
        post: &Self,
        ctx1: &EventCtx,
        data1: &TabsState<TFD>,
    ) -> bool {
        &&& *post == *pre
        &&& *ctx1 == *ctx0
        &&& *data1 == if pre.spec_closes(event) {
            TabsState {
                inner: data0.tabs_from_data.closed_spec(pre.key, data0.inner),
                ..*data0
            }
        } else {
            *data0
        }
    }

    open spec fn lifecycle_post(
        pre: &Self,
        ctx0: &LifeCycleCtx,
        event: &LifeCycle,
        data: &TabsState<TFD>,
        env: &Env,
        post: &Self,
        ctx1: &LifeCycleCtx,
    ) -> bool {
        *post == *pre && *ctx1 == *ctx0
    }

    open spec fn update_post(
        pre: &Self,
        ctx0: &UpdateCtx,
        old_data: &TabsState<TFD>,
        data: &TabsState<TFD>,
        env: &Env,
        post: &Self,
        ctx1: &UpdateCtx,
    ) -> bool {
        *post == *pre && *ctx1 == *ctx0
    }

    open spec fn layout_post(
        pre: &Self,
        ctx0: &LayoutCtx,
        bc: &BoxConstraints,
        data: &TabsState<TFD>,
        env: &Env,
        post: &Self,
        ctx1: &LayoutCtx,
        size: Size,
    ) -> bool {
        *post == *pre && *ctx1 == *ctx0 && size == bc.spec_constrain(
            Self::spec_wanted(pre.can_close),
        )
    }

    open spec fn paint_post(
        pre: &Self,
        ctx0: &PaintCtx,
        data: &TabsState<TFD>,
        env: &Env,
        post: &Self,
        ctx1: &PaintCtx,
    ) -> bool {
        let named = ctx0.ops@.push(
            PaintOp::Text {
                origin: Point { x: 9, y: 5 },
                text: pre.name,
                colour: env.spec_colour(LABEL_COLOR),
            },
        );
        &&& *post == *pre
        &&& ctx1.frame == ctx0.frame
        &&& ctx1.ops@ == if pre.can_close {
            named.push(
                PaintOp::CloseMark {
                    origin: Point { x: LABEL_WIDTH, y: 5 },
                    colour: env.spec_colour(LABEL_COLOR),
                },
            )
        } else {
            named
        }
    }

    fn event(&mut self, ctx: &mut EventCtx, event: &Event, data: &mut TabsState<TFD>, env: &Env) {
        if self.can_close {
            match event {
                Event::MouseDown(m) => {
                    if m.pos.x >= LABEL_WIDTH {
                        data.tabs_from_data.close_tab(self.key, &mut data.inner);
                    }
                },
                _ => {},
            }
        }
    }

    fn lifecycle(
        &mut self,
        ctx: &mut LifeCycleCtx,
        event: &LifeCycle,
        data: &TabsState<TFD>,
        env: &Env,
    ) {
    }

    fn update(
        &mut self,
        ctx: &mut UpdateCtx,
        old_data: &TabsState<TFD>,
        data: &TabsState<TFD>,
        env: &Env,
    ) {
    }

    fn layout(
        &mut self,
        ctx: &mut LayoutCtx,
        bc: &BoxConstraints,
        data: &TabsState<TFD>,
        env: &Env,
    ) -> (size: Size) {
        let width = if self.can_close {
            LABEL_WIDTH + CLOSE_WIDTH
        } else {
            LABEL_WIDTH
        };
        bc.constrain(Size { width, height: LABEL_HEIGHT })
    }

    fn paint(&mut self, ctx: &mut PaintCtx, data: &TabsState<TFD>, env: &Env) {
        let colour = env.colour(LABEL_COLOR);
        ctx.text(Point { x: 9, y: 5 }, self.name.clone(), colour);
        if self.can_close {
            ctx.close_mark(Point { x: LABEL_WIDTH, y: 5 }, colour);
        }
    }
}

/// Makes the label of a new tab and turns it as the bar calls for.
pub struct BarMaker {
    pub orientation: TabOrientation,
    pub axis: Axis,
    pub cross: CrossAxisAlignment,
}

impl<TFD: TabsFromData> TabContentMaker<
    TFD,
    Pod<TabsState<TFD>, Rotated<TabLabel<TFD>>>,
> for BarMaker {
    /// The slot holds a new node around the label of the tab, which shows
    /// what the policy says of the tab.
    open spec fn made(
        &self,
        tfd: &TFD,
        key: u64,
        idx: usize,
        data: &TFD::T,
        ids0: &IdSource,
        slot: Option<Pod<TabsState<TFD>, Rotated<TabLabel<TFD>>>>,
        ids1: &IdSource,
    ) -> bool {
        &&& slot is Some
        &&& slot->0.state == PodState::spec_initial(WidgetId(ids0.next))
        &&& slot->0.old_data is None
        &&& slot->0.inner.turns == self.orientation.spec_turns(self.axis, self.cross)
        &&& slot->0.inner.inner.key == key
        &&& tfd.info_post(
            key,
            data,
            TabInfo { name: slot->0.inner.inner.name, can_close: slot->0.inner.inner.can_close },
        )
        &&& ids1.next == IdSource::after_draw(ids0.next)
    }

    open spec fn content_wf(content: &Pod<TabsState<TFD>, Rotated<TabLabel<TFD>>>) -> bool {
        content.wf()
    }

    fn make(&self, tfd: &TFD, key: u64, idx: usize, data: &TFD::T, ids: &mut IdSource) -> (r:
        Option<Pod<TabsState<TFD>, Rotated<TabLabel<TFD>>>>) {
        let info = tfd.info_from_key(key, data);
        let label = TabLabel::new(key, info);
        Some(Pod::new(ids, self.orientation.rotate_and_box(label, self.axis, self.cross)))
    }
}

/// The bar of a tab container.
pub struct TabBar<TFD: TabsFromData> {
    pub axis: Axis,
    pub cross: CrossAxisAlignment,
    pub orientation: TabOrientation,
    pub tabs: Vec<(u64, Option<Pod<TabsState<TFD>, Rotated<TabLabel<TFD>>>>)>,
    /// The place of the label under the pointer.
    pub hot: Option<usize>,
}

/// The far edge of a label along the bar.
pub open spec fn spec_far<T, W>(slot: (u64, Option<Pod<T, W>>), axis: Axis) -> i64 {
    match slot.1 {
        Some(node) => axis.spec_major_span(node.state.layout_rect).1,
        None => i64::MIN,
    }
}

/// The far edges of the labels do not fall along the bar.
pub open spec fn edges_rising<T, W>(tabs: Seq<(u64, Option<Pod<T, W>>)>, axis: Axis) -> bool {
    forall|i: int, j: int| 0 <= i <= j < tabs.len() ==> spec_far(tabs[i], axis) <= spec_far(tabs[j], axis)
}

/// `found` is what a search for the label at `major` along the bar may
/// answer: the place of a label in any case and, where the edges of the
/// labels do not fall, the first label whose far edge reaches `major`.
pub open spec fn spec_hit<T, W>(
    tabs: Seq<(u64, Option<Pod<T, W>>)>,
    axis: Axis,
    major: i64,
    found: Option<usize>,
) -> bool {
    &&& found is Some ==> found->0 < tabs.len()
    &&& edges_rising(tabs, axis) ==> match found {
        Some(at) => {
            &&& spec_far(tabs[at as int], axis) >= major
            &&& forall|j: int| 0 <= j < at ==> spec_far(tabs[j], axis) < major
        },
        None => forall|j: int| 0 <= j < tabs.len() ==> spec_far(tabs[j], axis) < major,
    }
}

/// The colour behind a label: dark under the pointer, light where the tab is
/// selected, the background otherwise.
pub open spec fn spec_label_ground(env: &Env, selected: bool, hot: bool) -> i64 {
    if hot {
        env.spec_colour(BUTTON_DARK)
    } else if selected {
        env.spec_colour(BACKGROUND_LIGHT)
    } else {
        env.spec_colour(BACKGROUND_DARK)
    }
}

/// The line that marks the selected label: along the side of the label
/// that faces the body.
pub open spec fn spec_highlight(axis: Axis, cross: CrossAxisAlignment, rect: Rect, env: &Env) -> PaintOp {
    let major = axis.spec_major_span(rect);
    let minor = axis.spec_minor_span(rect);
    let at = if cross == CrossAxisAlignment::End {
        saturate(minor.0 + 1)
    } else {
        saturate(minor.1 - 1)
    };
    PaintOp::StrokeLine {
        from: axis.spec_pack_point(major.0, at),
        to: axis.spec_pack_point(major.1, at),
        colour: env.spec_colour(PRIMARY_LIGHT),
        width: 2,
    }
}

/// What the layout of the label at place `i` does, `size` being the size
/// it took.
pub open spec fn label_laid<T: Data, W: Widget<T>>(
    pre: &Option<Pod<T, W>>,
    ctx0: &LayoutCtx,
    bc: &BoxConstraints,
    data: &T,
    env: &Env,
    size: Size,
    post: &Option<Pod<T, W>>,
    ctx1: &LayoutCtx,
) -> bool {
    match pre {
        Some(node) => {
            &&& post is Some
            &&& Pod::layout_post(
                node,
                ctx0,
                bc,
                data,
                env,
                &(Pod {
                    state: PodState { layout_rect: spec_laid_rect(node, size), ..post->0.state },
                    ..post->0
                }),
                ctx1,
                size,
            )
        },
        None => post is None && *ctx1 == *ctx0 && size == (Size { width: 0, height: 0 }),
    }
}

/// The step of a row of label layouts.
pub open spec fn label_laid_step<T: Data, W: Widget<T>>(
    pre: Seq<(u64, Option<Pod<T, W>>)>,
    bc: &BoxConstraints,
    data: &T,
    env: &Env,
    sizes: Seq<Size>,
    post: Seq<(u64, Option<Pod<T, W>>)>,
) -> spec_fn(int, LayoutCtx, LayoutCtx) -> bool {
    |i: int, a: LayoutCtx, b: LayoutCtx|
        label_laid(&pre[i].1, &a, bc, data, env, sizes[i], &post[i].1, &b)
}

/// One painting of the label at place `i`, told with the surface `filled`
/// after the ground has been filled and `painted` after the label has
/// painted.
pub open spec fn label_painted_from<T: Data, W: Widget<T>>(
    pre: &Pod<T, W>,
    ctx0: &PaintCtx,
    ground: i64,
    mark: Option<PaintOp>,
    data: &T,
    env: &Env,
    filled: &PaintCtx,
    painted: &PaintCtx,
    post: &Pod<T, W>,
    ctx1: &PaintCtx,
) -> bool {
    &&& filled.frame == ctx0.frame
    &&& filled.ops@ == ctx0.ops@.push(PaintOp::Fill { rect: pre.state.layout_rect, colour: ground })
    &&& Pod::paint_post(pre, filled, data, env, post, painted)
    &&& ctx1.frame == painted.frame
    &&& ctx1.ops@ == match mark {
        Some(line) => painted.ops@.push(line),
        None => painted.ops@,
    }
}

/// What painting the label at place `i` does: the ground behind the label
/// is filled, the label paints, and the selected label gets its line.
pub open spec fn label_painted<T: Data, W: Widget<T>>(
    pre: &Option<Pod<T, W>>,
    ctx0: &PaintCtx,
    ground: i64,
    mark: Option<PaintOp>,
    data: &T,
    env: &Env,
    post: &Option<Pod<T, W>>,
    ctx1: &PaintCtx,
) -> bool {
    match pre {
        Some(node) => post is Some && exists|filled: PaintCtx, painted: PaintCtx| #[trigger]
            label_painted_from(node, ctx0, ground, mark, data, env, &filled, &painted, &post->0, ctx1),
        None => post is None && *ctx1 == *ctx0,
    }
}

impl<TFD: TabsFromData> TabBar<TFD> {
    pub fn new(axis: Axis, cross: CrossAxisAlignment, orientation: TabOrientation) -> (r: Self)
        ensures
            r.spec_wf(),
            r.axis == axis,
            r.cross == cross,
            r.orientation == orientation,
            r.tabs@ == Seq::<(u64, Option<Pod<TabsState<TFD>, Rotated<TabLabel<TFD>>>>)>::empty(),
            r.hot is None,
    {
        let r = TabBar { axis, cross, orientation, tabs: Vec::new(), hot: None };
        assert(keys_of(r.tabs@) =~= Seq::<u64>::empty());
        r
    }

    /// No key occurs twice, and every tab has a well-formed label.
    pub open spec fn spec_wf(&self) -> bool {
        &&& distinct(keys_of(self.tabs@))
        &&& slots_wf(self.tabs@)
        &&& forall|i: int| 0 <= i < self.tabs@.len() ==> (#[trigger] self.tabs@[i]).1 is Some
    }

    fn far(&self, i: usize) -> (r: i64)
        requires
            i < self.tabs.len(),
        ensures
            r == spec_far(self.tabs@[i as int], self.axis),
    {
        match &self.tabs[i].1 {
            Some(node) => self.axis.major_span(node.layout_rect()).1,
            None => i64::MIN,
        }
    }

    /// The place of the label at `pos`: the first label whose far edge
    /// reaches the position along the bar. The search halves the row of
    /// labels, which the layout leaves with edges that do not fall.
    pub fn find_idx(&self, pos: Point) -> (r: Option<usize>)
        ensures
            spec_hit(self.tabs@, self.axis, self.axis.spec_major_pos(pos), r),
    {
        let major = self.axis.major_pos(pos);
        let n = self.tabs.len();
        let mut lo: usize = 0;
        let mut hi: usize = n;
        while lo < hi
            invariant
                lo <= hi <= n,
                n == self.tabs.len(),
                major == self.axis.spec_major_pos(pos),
                edges_rising(self.tabs@, self.axis) ==> {
                    &&& forall|j: int| 0 <= j < lo ==> spec_far(self.tabs@[j], self.axis) < major
                    &&& forall|j: int| hi <= j < n ==> spec_far(self.tabs@[j], self.axis) >= major
                },
            decreases hi - lo,
        {
            let mid = lo + (hi - lo) / 2;
            if self.far(mid) < major {
                lo = mid + 1;
            } else {
                hi = mid;
            }
        }
        if lo < n {
            Some(lo)
        } else {
            None
        }
    }

    /// The maker of the labels of this bar.
    pub open spec fn spec_maker(&self) -> BarMaker {
        BarMaker { orientation: self.orientation, axis: self.axis, cross: self.cross }
    }

    /// What `ensure_tabs` makes of the labels.
    pub open spec fn tabs_made(
        pre: &Self,
        data: &TabsState<TFD>,
        tab_set: u64,
        ids0: &IdSource,
        post: Seq<(u64, Option<Pod<TabsState<TFD>, Rotated<TabLabel<TFD>>>>)>,
        ids1: &IdSource,
        existing: Seq<usize>,
    ) -> bool {
        ensured(
            pre.tabs@,
            &data.tabs_from_data,
            tab_set,
            &data.inner,
            &pre.spec_maker(),
            ids0,
            post,
            ids1,
            existing,
        )
    }

    /// Brings the labels in line with the tabs of `tab_set`: a tab that
    /// stays keeps its label, a tab that is gone loses it, and a new tab
    /// gets a new label.
    pub fn ensure_tabs(&mut self, data: &TabsState<TFD>, tab_set: u64, ids: &mut IdSource)
        requires
            old(self).spec_wf(),
        ensures
            final(self).spec_wf(),
            final(self).axis == old(self).axis,
            final(self).cross == old(self).cross,
            final(self).orientation == old(self).orientation,
            final(self).hot == old(self).hot,
            exists|existing: Seq<usize>| #[trigger]
                Self::tabs_made(
                    old(self),
                    data,
                    tab_set,
                    old(ids),
                    final(self).tabs@,
                    final(ids),
                    existing,
                ),
    {
        let maker = BarMaker { orientation: self.orientation, axis: self.axis, cross: self.cross };
        let existing = ensure_for_tabs(
            &mut self.tabs,
            &data.tabs_from_data,
            tab_set,
            &data.inner,
            &maker,
            ids,
        );
        proof {
            assert(Self::tabs_made(old(self), data, tab_set, old(ids), self.tabs@, ids, existing@));
            assert forall|i: int| 0 <= i < self.tabs@.len() implies (#[trigger] self.tabs@[i]).1 is Some by {
                let key = self.tabs@[i].0;
                if has_key(old(self).tabs@, key) {
                    let j = crate::keyed::position(old(self).tabs@, key);
                    assert(0 <= j < old(self).tabs@.len() && old(self).tabs@[j].0 == key);
                    assert(old(self).tabs@[j].1 is Some);
                } else {
                    assert(made_within(
                        &maker,
                        &data.tabs_from_data,
                        key,
                        i as usize,
                        &data.inner,
                        old(ids),
                        self.tabs@[i].1,
                        ids,
                    ));
                }
            }
        }
    }
}

impl<TFD: TabsFromData> TabBar<TFD> {
    /// The data once a press has been seen to: a press on a label selects
    /// its tab.
    pub open spec fn spec_pressed(data: &TabsState<TFD>, found: Option<usize>) -> TabsState<TFD> {
        match found {
            Some(at) => TabsState { selected: at, ..*data },
            None => *data,
        }
    }

    /// The context once a move of the pointer has been seen to: a change of
    /// the label under the pointer asks for paint.
    pub open spec fn spec_hovered(ctx: &EventCtx, before: Option<usize>, found: Option<usize>) -> EventCtx {
        if found != before {
            EventCtx { requests: Requests { paint: true, ..ctx.requests }, ..*ctx }
        } else {
            *ctx
        }
    }

    /// One event phase, told with what the search for the label under the
    /// pointer found.
    pub open spec fn event_from(
        pre: &Self,
        ctx0: &EventCtx,
        event: &Event,
        data0: &TabsState<TFD>,
        env: &Env,
        found: Option<usize>,
        post: &Self,
        ctx1: &EventCtx,
        data1: &TabsState<TFD>,
    ) -> bool {
        let major = pre.axis.spec_major_pos(event.spec_pointer()->0.pos);
        &&& post.axis == pre.axis
        &&& post.cross == pre.cross
        &&& post.orientation == pre.orientation
        &&& if *event is MouseDown {
            &&& spec_hit(pre.tabs@, pre.axis, major, found)
            &&& post.hot == pre.hot
            &&& all_heard(
                pre.tabs@,
                ctx0,
                event,
                &Self::spec_pressed(data0, found),
                env,
                post.tabs@,
                ctx1,
                data1,
            )
        } else if *event is MouseMove {
            &&& if ctx0.frame.is_hot {
                spec_hit(pre.tabs@, pre.axis, major, found)
            } else {
                found is None
            }
            &&& post.hot == found
            &&& all_heard(
                pre.tabs@,
                &Self::spec_hovered(ctx0, pre.hot, found),
                event,
                data0,
                env,
                post.tabs@,
                ctx1,
                data1,
            )
        } else {
            &&& post.hot == pre.hot
            &&& all_heard(pre.tabs@, ctx0, event, data0, env, post.tabs@, ctx1, data1)
        }
    }

    /// One lifecycle phase, told with the labels `made` and the context
    /// `first` as the first notice left them.
    pub open spec fn lifecycle_from(
        pre: &Self,
        ctx0: &LifeCycleCtx,
        event: &LifeCycle,
        data: &TabsState<TFD>,
        env: &Env,
        made: Seq<(u64, Option<Pod<TabsState<TFD>, Rotated<TabLabel<TFD>>>>)>,
        existing: Seq<usize>,
        first: &LifeCycleCtx,
        post: &Self,
        ctx1: &LifeCycleCtx,
    ) -> bool {
        &&& post.axis == pre.axis
        &&& post.cross == pre.cross
        &&& post.orientation == pre.orientation
        &&& post.hot == pre.hot
        &&& if *event == LifeCycle::WidgetAdded {
            &&& Self::tabs_made(
                pre,
                data,
                data.tabs_from_data.tabs_spec(&data.inner),
                &ctx0.ids,
                made,
                &first.ids,
                existing,
            )
            &&& *first == (LifeCycleCtx {
                ids: first.ids,
                requests: Requests { children_changed: true, layout: true, ..ctx0.requests },
                ..*ctx0
            })
        } else {
            made == pre.tabs@ && *first == *ctx0
        }
        &&& all_noted(made, first, event, data, env, post.tabs@, ctx1)
    }

    /// One update phase, told with the places of the labels that were kept.
    pub open spec fn update_from(
        pre: &Self,
        ctx0: &UpdateCtx,
        old_data: &TabsState<TFD>,
        data: &TabsState<TFD>,
        env: &Env,
        existing: Seq<usize>,
        post: &Self,
        ctx1: &UpdateCtx,
    ) -> bool {
        &&& post.axis == pre.axis
        &&& post.cross == pre.cross
        &&& post.orientation == pre.orientation
        &&& post.hot == pre.hot
        &&& match data.tabs_from_data.changed_spec(&old_data.inner, &data.inner) {
            Some(tab_set) => {
                &&& Self::tabs_made(
                    pre,
                    data,
                    tab_set,
                    &ctx0.ids,
                    post.tabs@,
                    &ctx1.ids,
                    existing,
                )
                &&& *ctx1 == (UpdateCtx {
                    ids: ctx1.ids,
                    requests: Requests { children_changed: true, layout: true, ..ctx0.requests },
                    ..*ctx0
                })
            },
            None => {
                &&& post.tabs@ == pre.tabs@
                &&& *ctx1 == if old_data.selected != data.selected {
                    UpdateCtx { requests: Requests { paint: true, ..ctx0.requests }, ..*ctx0 }
                } else {
                    *ctx0
                }
            },
        }
    }

    /// One layout phase, told with the sizes that the labels took.
    pub open spec fn layout_from(
        pre: &Self,
        ctx0: &LayoutCtx,
        bc: &BoxConstraints,
        data: &TabsState<TFD>,
        env: &Env,
        sizes: Seq<Size>,
        post: &Self,
        ctx1: &LayoutCtx,
        size: Size,
    ) -> bool {
        let n = pre.tabs@.len() as int;
        let tallest = spec_tallest(sizes, pre.axis, n);
        &&& post.axis == pre.axis
        &&& post.cross == pre.cross
        &&& post.orientation == pre.orientation
        &&& post.hot == pre.hot
        &&& keys_of(post.tabs@) == keys_of(pre.tabs@)
        &&& sizes.len() == n
        &&& linked(label_laid_step(pre.tabs@, bc, data, env, sizes, post.tabs@), n, *ctx0, *ctx1)
        &&& forall|i: int|
            0 <= i < n && (#[trigger] post.tabs@[i]).1 is Some
                ==> post.tabs@[i].1->0.state.layout_rect == spec_placed(sizes, pre.axis, i, tallest)
        &&& size == bc.spec_constrain(
            pre.axis.spec_pack_size(
                spec_max(
                    spec_offset(sizes, pre.axis, n) as int,
                    pre.axis.spec_major(bc.max) as int,
                ) as i64,
                tallest,
            ),
        )
    }

    /// The step of a row of label paintings.
    pub open spec fn paint_step(
        pre: &Self,
        data: &TabsState<TFD>,
        env: &Env,
        post: Seq<(u64, Option<Pod<TabsState<TFD>, Rotated<TabLabel<TFD>>>>)>,
    ) -> spec_fn(int, PaintCtx, PaintCtx) -> bool {
        |i: int, a: PaintCtx, b: PaintCtx|
            label_painted(
                &pre.tabs@[i].1,
                &a,
                spec_label_ground(env, i == data.selected, pre.hot == Some(i as usize)),
                Self::spec_mark(pre, i, data, env),
                data,
                env,
                &post[i].1,
                &b,
            )
    }

    /// The line under the label at place `i`, if its tab is selected.
    pub open spec fn spec_mark(pre: &Self, i: int, data: &TabsState<TFD>, env: &Env) -> Option<
        PaintOp,
    > {
        if i == data.selected && pre.tabs@[i].1 is Some {
            Some(spec_highlight(pre.axis, pre.cross, pre.tabs@[i].1->0.state.layout_rect, env))
        } else {
            None
        }
    }

    fn measure(
        &mut self,
        ctx: &mut LayoutCtx,
        bc: &BoxConstraints,
        data: &TabsState<TFD>,
        env: &Env,
    ) -> (r: (i64, i64, Ghost<Seq<Size>>))
        requires
            old(self).spec_wf(),
        ensures
            final(self).spec_wf(),
            final(self).axis == old(self).axis,
            final(self).cross == old(self).cross,
            final(self).orientation == old(self).orientation,
            final(self).hot == old(self).hot,
            keys_of(final(self).tabs@) == keys_of(old(self).tabs@),
            final(self).tabs@.len() == old(self).tabs@.len(),
            r.2@.len() == old(self).tabs@.len(),
            r.0 == spec_offset(r.2@, old(self).axis, old(self).tabs@.len() as int),
            r.1 == spec_tallest(r.2@, old(self).axis, old(self).tabs@.len() as int),
            linked(
                label_laid_step(old(self).tabs@, bc, data, env, r.2@, final(self).tabs@),
                old(self).tabs@.len() as int,
                *old(ctx),
                *final(ctx),
            ),
            forall|i: int|
                0 <= i < old(self).tabs@.len() ==> (#[trigger] final(self).tabs@[i]).1->0.state.layout_rect
                    == spec_measured(r.2@, old(self).axis, i),
    {
        let ghost pre = self.tabs@;
        let ghost mut trail: Seq<LayoutCtx> = seq![*ctx];
        let ghost mut sizes: Seq<Size> = Seq::empty();
        let axis = self.axis;
        let n = self.tabs.len();
        let mut major: i64 = 0;
        let mut minor: i64 = 0;
        let mut i: usize = 0;
        while i < n
            invariant
                i <= n,
                n == pre.len(),
                self.tabs.len() == n,
                pre == old(self).tabs@,
                old(self).spec_wf(),
                self.axis == axis,
                axis == old(self).axis,
                self.cross == old(self).cross,
                self.orientation == old(self).orientation,
                self.hot == old(self).hot,
                slots_wf(self.tabs@),
                keys_of(self.tabs@) == keys_of(pre),
                forall|p: int| 0 <= p < n ==> (#[trigger] self.tabs@[p]).1 is Some,
                forall|p: int| i <= p < n ==> self.tabs@[p] == pre[p],
                sizes.len() == i,
                major == spec_offset(sizes, axis, i as int),
                minor == spec_tallest(sizes, axis, i as int),
                trail.len() == i + 1,
                trail[0] == *old(ctx),
                trail[i as int] == *ctx,
                forall|p: int|
                    #![trigger trail[p]]
                    0 <= p < i ==> label_laid(
                        &pre[p].1,
                        &trail[p],
                        bc,
                        data,
                        env,
                        sizes[p],
                        &self.tabs@[p].1,
                        &trail[p + 1],
                    ),
                forall|p: int|
                    0 <= p < i ==> (#[trigger] self.tabs@[p]).1->0.state.layout_rect == spec_measured(
                        sizes,
                        axis,
                        p,
                    ),
            decreases n - i,
        {
            let ghost before = self.tabs@;
            let ghost sizes_before = sizes;
            let entry = &mut self.tabs[i];
            match &mut entry.1 {
                Some(node) => {
                    let size = node.layout(ctx, bc, data, env);
                    let ghost laid = *node;
                    node.set_layout_rect(
                        Rect::from_origin_size(axis.pack_point(major, 0), size),
                    );
                    proof {
                        sizes = sizes.push(size);
                        assert(laid == (Pod {
                            state: PodState {
                                layout_rect: spec_laid_rect(&pre[i as int].1->0, size),
                                ..node.state
                            },
                            ..*node
                        }));
                    }
                    major = sat_add(major, axis.major(size));
                    minor = max_i64(minor, axis.minor(size));
                },
                None => {
                    proof {
                        sizes = sizes.push(Size { width: 0, height: 0 });
                    }
                },
            }
            proof {
                assert(self.tabs@[i as int].0 == before[i as int].0);
                assert(forall|p: int| 0 <= p < n && p != i ==> self.tabs@[p] == before[p]);
                assert(keys_of(self.tabs@) =~= keys_of(before));
                trail = trail.push(*ctx);
                lemma_offsets_prefix(sizes_before, sizes, axis, i as int);
                assert forall|p: int| 0 <= p < i + 1 implies (#[trigger] self.tabs@[p]).1->0.state.layout_rect
                    == spec_measured(sizes, axis, p) by {
                    lemma_offsets_prefix(sizes_before, sizes, axis, p);
                    if p < i {
                        assert(self.tabs@[p] == before[p]);
                        assert(sizes[p] == sizes_before[p]);
                    }
                }
            }
            i += 1;
        }
        proof {
            let step = label_laid_step(pre, bc, data, env, sizes, self.tabs@);
            assert(threaded(step, n as int, trail, *old(ctx), *ctx));
        }
        (major, minor, Ghost(sizes))
    }

    fn even_out(&mut self, minor: i64, Ghost(sizes): Ghost<Seq<Size>>)
        requires
            old(self).spec_wf(),
            sizes.len() == old(self).tabs@.len(),
            forall|i: int|
                0 <= i < old(self).tabs@.len() ==> (#[trigger] old(self).tabs@[i]).1->0.state.layout_rect
                    == spec_measured(sizes, old(self).axis, i),
        ensures
            final(self).spec_wf(),
            final(self).axis == old(self).axis,
            final(self).cross == old(self).cross,
            final(self).orientation == old(self).orientation,
            final(self).hot == old(self).hot,
            final(self).tabs@.len() == old(self).tabs@.len(),
            forall|i: int|
                0 <= i < old(self).tabs@.len() ==> (#[trigger] final(self).tabs@[i]) == (
                    old(self).tabs@[i].0,
                    Some(
                        Pod {
                            state: PodState {
                                layout_rect: spec_placed(sizes, old(self).axis, i, minor),
                                ..old(self).tabs@[i].1->0.state
                            },
                            ..old(self).tabs@[i].1->0
                        },
                    ),
                ),
    {
        let ghost pre = self.tabs@;
        let axis = self.axis;
        let n = self.tabs.len();
        let mut i: usize = 0;
        while i < n
            invariant
                i <= n,
                n == pre.len(),
                self.tabs.len() == n,
                pre == old(self).tabs@,
                old(self).spec_wf(),
                sizes.len() == n,
                self.axis == axis,
                axis == old(self).axis,
                self.cross == old(self).cross,
                self.orientation == old(self).orientation,
                self.hot == old(self).hot,
                forall|p: int|
                    0 <= p < n ==> (#[trigger] pre[p]).1->0.state.layout_rect == spec_measured(
                        sizes,
                        axis,
                        p,
                    ),
                forall|p: int| i <= p < n ==> self.tabs@[p] == pre[p],
                forall|p: int|
                    0 <= p < i ==> (#[trigger] self.tabs@[p]) == (
                        pre[p].0,
                        Some(
                            Pod {
                                state: PodState {
                                    layout_rect: spec_placed(sizes, axis, p, minor),
                                    ..pre[p].1->0.state
                                },
                                ..pre[p].1->0
                            },
                        ),
                    ),
            decreases n - i,
        {
            let ghost before = self.tabs@;
            let entry = &mut self.tabs[i];
            match &mut entry.1 {
                Some(node) => {
                    let rect = node.layout_rect();
                    node.set_layout_rect(
                        rect.with_size(axis.pack_size(axis.major(rect.size()), minor)),
                    );
                },
                None => {},
            }
            proof {
                assert(pre[i as int].1 is Some);
                assert(self.tabs@[i as int].0 == before[i as int].0);
                assert(forall|p: int| 0 <= p < n && p != i ==> self.tabs@[p] == before[p]);
            }
            i += 1;
        }
        proof {
            assert(keys_of(self.tabs@) =~= keys_of(pre));
            assert forall|p: int| 0 <= p < n && (#[trigger] self.tabs@[p]).1 is Some implies self.tabs@[p].1->0.wf() by {
                assert(pre[p].1 is Some);
            }
        }
    }
}

impl<TFD: TabsFromData> TabBar<TFD> {
    /// Sees to what the pointer means to the bar itself. The answer is what
    /// the search for the label under the pointer found.
    fn pointed(&mut self, ctx: &mut EventCtx, event: &Event, data: &mut TabsState<TFD>) -> (found:
        Option<usize>)
        ensures
            final(self).tabs == old(self).tabs,
            final(self).axis == old(self).axis,
            final(self).cross == old(self).cross,
            final(self).orientation == old(self).orientation,
            if *event is MouseDown {
                &&& spec_hit(
                    old(self).tabs@,
                    old(self).axis,
                    old(self).axis.spec_major_pos(event.spec_pointer()->0.pos),
                    found,
                )
                &&& final(self).hot == old(self).hot
                &&& *final(ctx) == *old(ctx)
                &&& *final(data) == Self::spec_pressed(old(data), found)
            } else if *event is MouseMove {
                &&& if old(ctx).frame.is_hot {
                    spec_hit(
                        old(self).tabs@,
                        old(self).axis,
                        old(self).axis.spec_major_pos(event.spec_pointer()->0.pos),
                        found,
                    )
                } else {
                    found is None
                }
                &&& final(self).hot == found
                &&& *final(ctx) == Self::spec_hovered(old(ctx), old(self).hot, found)
                &&& *final(data) == *old(data)
            } else {
                &&& final(self).hot == old(self).hot
                &&& *final(ctx) == *old(ctx)
                &&& *final(data) == *old(data)
            },
    {
        match event {
            Event::MouseDown(e) => {
                let hit = self.find_idx(e.pos);
                match hit {
                    Some(idx) => {
                        data.selected = idx;
                    },
                    None => {},
                }
                hit
            },
            Event::MouseMove(e) => {
                let new_hot = if ctx.is_hot() {
                    self.find_idx(e.pos)
                } else {
                    None
                };
                let same = match (new_hot, self.hot) {
                    (Some(a), Some(b)) => a == b,
                    (None, None) => true,
                    _ => false,
                };
                if !same {
                    self.hot = new_hot;
                    ctx.request_paint();
                }
                new_hot
            },
            _ => None,
        }
    }
}

impl<TFD: TabsFromData> Widget<TabsState<TFD>> for TabBar<TFD> {
    open spec fn wf(&self) -> bool {
        self.spec_wf()
    }

    /// A press on a label selects its tab; a move of the pointer decides
    /// which label is under it. Then every label hears the event.
    open spec fn event_post(
        pre: &Self,
        ctx0: &EventCtx,
        event: &Event,
        data0: &TabsState<TFD>,
        env: &Env,
        post: &Self,
        ctx1: &EventCtx,
        data1: &TabsState<TFD>,
    ) -> bool {
        exists|found: Option<usize>| #[trigger]
            Self::event_from(pre, ctx0, event, data0, env, found, post, ctx1, data1)
    }

    /// The first notice makes the labels for the tabs of the data. Every
    /// label takes every notice.
    open spec fn lifecycle_post(
        pre: &Self,
        ctx0: &LifeCycleCtx,
        event: &LifeCycle,
        data: &TabsState<TFD>,
        env: &Env,
        post: &Self,
        ctx1: &LifeCycleCtx,
    ) -> bool {
        exists|
            made: Seq<(u64, Option<Pod<TabsState<TFD>, Rotated<TabLabel<TFD>>>>)>,
            existing: Seq<usize>,
            first: LifeCycleCtx,
        | #[trigger]
            Self::lifecycle_from(pre, ctx0, event, data, env, made, existing, &first, post, ctx1)
    }

    /// A change of the tabs brings the labels in line with them and asks
    /// for layout; a change of the selected place alone asks for paint.
    open spec fn update_post(
        pre: &Self,
        ctx0: &UpdateCtx,
        old_data: &TabsState<TFD>,
        data: &TabsState<TFD>,
        env: &Env,
        post: &Self,
        ctx1: &UpdateCtx,
    ) -> bool {
        exists|existing: Seq<usize>| #[trigger]
            Self::update_from(pre, ctx0, old_data, data, env, existing, post, ctx1)
    }

    /// The labels are laid out one behind the other along the bar, each as
    /// far across the bar as the largest. The bar takes the room along its
    /// axis that it is allowed, and at least what the labels need.
    open spec fn layout_post(
        pre: &Self,
        ctx0: &LayoutCtx,
        bc: &BoxConstraints,
        data: &TabsState<TFD>,
        env: &Env,
        post: &Self,
        ctx1: &LayoutCtx,
        size: Size,
    ) -> bool {
        exists|sizes: Seq<Size>| #[trigger]
            Self::layout_from(pre, ctx0, bc, data, env, sizes, post, ctx1, size)
    }

    /// Each label in order: its ground is filled, it paints, and the label
    /// of the selected tab gets a line.
    open spec fn paint_post(
        pre: &Self,
        ctx0: &PaintCtx,
        data: &TabsState<TFD>,
        env: &Env,
        post: &Self,
        ctx1: &PaintCtx,
    ) -> bool {
        &&& post.axis == pre.axis
        &&& post.cross == pre.cross
        &&& post.orientation == pre.orientation
        &&& post.hot == pre.hot
        &&& keys_of(post.tabs@) == keys_of(pre.tabs@)
        &&& linked(
            Self::paint_step(pre, data, env, post.tabs@),
            pre.tabs@.len() as int,
            *ctx0,
            *ctx1,
        )
    }

    fn event(&mut self, ctx: &mut EventCtx, event: &Event, data: &mut TabsState<TFD>, env: &Env) {
        let found = self.pointed(ctx, event, data);
        let ghost tabs = self.tabs@;
        let ghost before = *ctx;
        let ghost pressed = *data;
        event_all(&mut self.tabs, ctx, event, data, env);
        proof {
            assert(tabs == old(self).tabs@);
            lemma_all_heard_filled(tabs, &before, event, &pressed, env, self.tabs@, ctx, data);
            assert(Self::event_from(old(self), old(ctx), event, old(data), env, found, self, ctx, data));
        }
    }

    fn lifecycle(
        &mut self,
        ctx: &mut LifeCycleCtx,
        event: &LifeCycle,
        data: &TabsState<TFD>,
        env: &Env,
    ) {
        let ghost mut existing: Seq<usize> = Seq::empty();
        match event {
            LifeCycle::WidgetAdded => {
                let init_set = data.tabs_from_data.tabs(&data.inner);
                let ghost ids0 = ctx.ids;
                self.ensure_tabs(data, init_set, &mut ctx.ids);
                proof {
                    existing = choose|existing: Seq<usize>|
                        Self::tabs_made(
                            old(self),
                            data,
                            init_set,
                            &ids0,
                            self.tabs@,
                            &ctx.ids,
                            existing,
                        );
                }
                ctx.children_changed();
                ctx.request_layout();
            },
            _ => {},
        }
        let ghost made = self.tabs@;
        let ghost first = *ctx;
        lifecycle_all(&mut self.tabs, ctx, event, data, env);
        proof {
            lemma_all_noted_filled(made, &first, event, data, env, self.tabs@, ctx);
            assert(Self::lifecycle_from(
                old(self),
                old(ctx),
                event,
                data,
                env,
                made,
                existing,
                &first,
                self,
                ctx,
            ));
        }
    }

    fn update(
        &mut self,
        ctx: &mut UpdateCtx,
        old_data: &TabsState<TFD>,
        data: &TabsState<TFD>,
        env: &Env,
    ) {
        let ghost mut existing: Seq<usize> = Seq::empty();
        match data.tabs_from_data.tabs_changed(&old_data.inner, &data.inner) {
            Some(tab_set) => {
                let ghost ids0 = ctx.ids;
                self.ensure_tabs(data, tab_set, &mut ctx.ids);
                proof {
                    existing = choose|existing: Seq<usize>|
                        Self::tabs_made(
                            old(self),
                            data,
                            tab_set,
                            &ids0,
                            self.tabs@,
                            &ctx.ids,
                            existing,
                        );
                }
                ctx.children_changed();
                ctx.request_layout();
            },
            None => {
                if old_data.selected != data.selected {
                    ctx.request_paint();
                }
            },
        }
        proof {
            assert(Self::update_from(old(self), old(ctx), old_data, data, env, existing, self, ctx));
        }
    }

    fn layout(
        &mut self,
        ctx: &mut LayoutCtx,
        bc: &BoxConstraints,
        data: &TabsState<TFD>,
        env: &Env,
    ) -> (size: Size) {
        let (major, minor, Ghost(sizes)) = self.measure(ctx, bc, data, env);
        let ghost measured = self.tabs@;
        self.even_out(minor, Ghost(sizes));
        let wanted = self.axis.pack_size(max_i64(major, self.axis.major(bc.max)), minor);
        let size = bc.constrain(wanted);
        proof {
            lemma_even_out_keeps_laid(
                old(self).tabs@,
                bc,
                data,
                env,
                sizes,
                measured,
                self.tabs@,
                self.axis,
                minor,
                old(ctx),
                ctx,
            );
            assert(keys_of(self.tabs@) =~= keys_of(measured));
            assert(Self::layout_from(old(self), old(ctx), bc, data, env, sizes, self, ctx, size));
        }
        size
    }

    fn paint(&mut self, ctx: &mut PaintCtx, data: &TabsState<TFD>, env: &Env) {
        let ghost pre = self.tabs@;
        let ghost mut trail: Seq<PaintCtx> = seq![*ctx];
        let axis = self.axis;
        let cross = self.cross;
        let hot = self.hot;
        let selected = data.selected;
        let n = self.tabs.len();
        let highlight = env.colour(PRIMARY_LIGHT);
        let mut i: usize = 0;
        while i < n
            invariant
                i <= n,
                n == pre.len(),
                self.tabs.len() == n,
                pre == old(self).tabs@,
                self.axis == axis,
                axis == old(self).axis,
                self.cross == cross,
                cross == old(self).cross,
                self.orientation == old(self).orientation,
                self.hot == hot,
                hot == old(self).hot,
                selected == data.selected,
                highlight == env.spec_colour(PRIMARY_LIGHT),
                slots_wf(self.tabs@),
                distinct(keys_of(self.tabs@)),
                keys_of(self.tabs@) == keys_of(pre),
                forall|p: int| 0 <= p < n ==> (#[trigger] self.tabs@[p]).1 is Some,
                forall|p: int| i <= p < n ==> self.tabs@[p] == pre[p],
                trail.len() == i + 1,
                trail[0] == *old(ctx),
                trail[i as int] == *ctx,
                forall|p: int|
                    #![trigger trail[p]]
                    0 <= p < i ==> label_painted(
                        &pre[p].1,
                        &trail[p],
                        spec_label_ground(env, p == selected, hot == Some(p as usize)),
                        Self::spec_mark(old(self), p, data, env),
                        data,
                        env,
                        &self.tabs@[p].1,
                        &trail[p + 1],
                    ),
            decreases n - i,
        {
            let ghost before = self.tabs@;
            let ghost start = *ctx;
            let ghost mut filled = *ctx;
            let ghost mut painted = *ctx;
            let is_selected = i == selected;
            let is_hot = match hot {
                Some(at) => at == i,
                None => false,
            };
            let ground = if is_hot {
                env.colour(BUTTON_DARK)
            } else if is_selected {
                env.colour(BACKGROUND_LIGHT)
            } else {
                env.colour(BACKGROUND_DARK)
            };
            let entry = &mut self.tabs[i];
            match &mut entry.1 {
                Some(node) => {
                    let rect = node.layout_rect();
                    ctx.fill(rect, ground);
                    proof {
                        filled = *ctx;
                    }
                    node.paint(ctx, data, env);
                    proof {
                        painted = *ctx;
                    }
                    if is_selected {
                        let (maj_near, maj_far) = axis.major_span(rect);
                        let (min_near, min_far) = axis.minor_span(rect);
                        let at = match cross {
                            CrossAxisAlignment::End => sat_add(min_near, 1),
                            _ => sat_sub(min_far, 1),
                        };
                        ctx.stroke_line(
                            axis.pack_point(maj_near, at),
                            axis.pack_point(maj_far, at),
                            highlight,
                            2,
                        );
                    }
                },
                None => {},
            }
            proof {
                assert(self.tabs@[i as int].0 == before[i as int].0);
                assert(forall|p: int| 0 <= p < n && p != i ==> self.tabs@[p] == before[p]);
                assert(keys_of(self.tabs@) =~= keys_of(before));
                assert(pre[i as int].1 is Some);
                assert(label_painted_from(
                    &pre[i as int].1->0,
                    &start,
                    spec_label_ground(env, i == selected, hot == Some(i)),
                    Self::spec_mark(old(self), i as int, data, env),
                    data,
                    env,
                    &filled,
                    &painted,
                    &self.tabs@[i as int].1->0,
                    ctx,
                ));
                trail = trail.push(*ctx);
            }
            i += 1;
        }
        proof {
            let step = Self::paint_step(old(self), data, env, self.tabs@);
            assert(threaded(step, n as int, trail, *old(ctx), *ctx));
        }
    }
}

/// Filled slots stay filled when every slot takes a notice.
pub proof fn lemma_all_noted_filled<T: Data, W: Widget<T>>(
    pre: Seq<(u64, Option<Pod<T, W>>)>,
    ctx0: &LifeCycleCtx,
    event: &LifeCycle,
    data: &T,
    env: &Env,
    post: Seq<(u64, Option<Pod<T, W>>)>,
    ctx1: &LifeCycleCtx,
)
    requires
        all_noted(pre, ctx0, event, data, env, post, ctx1),
        forall|i: int| 0 <= i < pre.len() ==> (#[trigger] pre[i]).1 is Some,
    ensures
        post.len() == pre.len(),
        forall|i: int| 0 <= i < post.len() ==> (#[trigger] post[i]).1 is Some,
{
    let step = crate::slots::lifecycle_step(pre, event, data, env, post);
    let trail = choose|trail: Seq<LifeCycleCtx>|
        threaded(step, pre.len() as int, trail, *ctx0, *ctx1);
    assert(keys_of(post).len() == keys_of(pre).len());
    assert forall|i: int| 0 <= i < post.len() implies (#[trigger] post[i]).1 is Some by {
        assert(step(i, trail[i], trail[i + 1]));
        assert(pre[i].1 is Some);
    }
}

/// Moving the labels to their final places leaves what their layout did
/// as it was.
pub proof fn lemma_even_out_keeps_laid<T: Data, W: Widget<T>>(
    pre: Seq<(u64, Option<Pod<T, W>>)>,
    bc: &BoxConstraints,
    data: &T,
    env: &Env,
    sizes: Seq<Size>,
    measured: Seq<(u64, Option<Pod<T, W>>)>,
    evened: Seq<(u64, Option<Pod<T, W>>)>,
    axis: Axis,
    minor: i64,
    ctx0: &LayoutCtx,
    ctx1: &LayoutCtx,
)
    requires
        measured.len() == pre.len(),
        evened.len() == pre.len(),
        sizes.len() == pre.len(),
        linked(label_laid_step(pre, bc, data, env, sizes, measured), pre.len() as int, *ctx0, *ctx1),
        forall|i: int|
            0 <= i < pre.len() ==> (#[trigger] evened[i]) == (
                measured[i].0,
                Some(
                    Pod {
                        state: PodState {
                            layout_rect: spec_placed(sizes, axis, i, minor),
                            ..measured[i].1->0.state
                        },
                        ..measured[i].1->0
                    },
                ),
            ),
        forall|i: int| 0 <= i < pre.len() ==> (#[trigger] pre[i]).1 is Some,
    ensures
        linked(label_laid_step(pre, bc, data, env, sizes, evened), pre.len() as int, *ctx0, *ctx1),
{
    let n = pre.len() as int;
    let step_a = label_laid_step(pre, bc, data, env, sizes, measured);
    let step_b = label_laid_step(pre, bc, data, env, sizes, evened);
    let trail = choose|trail: Seq<LayoutCtx>| threaded(step_a, n, trail, *ctx0, *ctx1);
    assert(threaded(step_a, n, trail, *ctx0, *ctx1));
    assert forall|i: int| #![trigger trail[i]] 0 <= i < n implies step_b(
        i,
        trail[i],
        trail[i + 1],
    ) by {
        assert(step_a(i, trail[i], trail[i + 1]));
        assert(pre[i].1 is Some);
        assert(label_laid(&pre[i].1, &trail[i], bc, data, env, sizes[i], &measured[i].1, &trail[i + 1]));
        assert(measured[i].1 is Some);
        let node = pre[i].1->0;
        let m = measured[i].1->0;
        let e = evened[i].1->0;
        assert(evened[i].1 == Some(
            Pod {
                state: PodState {
                    layout_rect: spec_placed(sizes, axis, i, minor),
                    ..measured[i].1->0.state
                },
                ..measured[i].1->0
            },
        ));
        assert((Pod {
            state: PodState { layout_rect: spec_laid_rect(&node, sizes[i]), ..e.state },
            ..e
        }) == (Pod {
            state: PodState { layout_rect: spec_laid_rect(&node, sizes[i]), ..m.state },
            ..m
        }));
        assert(label_laid(&pre[i].1, &trail[i], bc, data, env, sizes[i], &evened[i].1, &trail[i + 1]));
    }
    assert(threaded(step_b, n, trail, *ctx0, *ctx1));
}

/// Filled slots stay filled when every slot hears an event.
pub proof fn lemma_all_heard_filled<T: Data, W: Widget<T>>(
    pre: Seq<(u64, Option<Pod<T, W>>)>,
    ctx0: &EventCtx,
    event: &Event,
    data0: &T,
    env: &Env,
    post: Seq<(u64, Option<Pod<T, W>>)>,
    ctx1: &EventCtx,
    data1: &T,
)
    requires
        all_heard(pre, ctx0, event, data0, env, post, ctx1, data1),
        forall|i: int| 0 <= i < pre.len() ==> (#[trigger] pre[i]).1 is Some,
    ensures
        post.len() == pre.len(),
        forall|i: int| 0 <= i < post.len() ==> (#[trigger] post[i]).1 is Some,
{
    let step = crate::slots::event_step(pre, event, env, post);
    let trail = choose|trail: Seq<(EventCtx, T)>|
        threaded(step, pre.len() as int, trail, (*ctx0, *data0), (*ctx1, *data1));
    assert(keys_of(post).len() == keys_of(pre).len());
    assert forall|i: int| 0 <= i < post.len() implies (#[trigger] post[i]).1 is Some by {
        assert(step(i, trail[i], trail[i + 1]));
        assert(pre[i].1 is Some);
    }
}

/// The size that a node takes in a layout within well-formed constraints
/// has no negative side.
pub proof fn lemma_laid_size_wf<T: Data, W: Widget<T>>(
    pre: &Pod<T, W>,
    ctx0: &LayoutCtx,
    bc: &BoxConstraints,
    data: &T,
    env: &Env,
    post: &Pod<T, W>,
    ctx1: &LayoutCtx,
    size: Size,
)
    requires
        bc.wf(),
        Pod::layout_post(pre, ctx0, bc, data, env, post, ctx1, size),
    ensures
        size.wf(),
        bc.spec_contains(size),
{
}

/// The layout of the bar, within well-formed constraints, leaves the far
/// edges of the labels in an order that does not fall along the bar: what
/// the search for the label at a position relies on.
pub proof fn lemma_layout_edges_rising<TFD: TabsFromData>(
    pre: &TabBar<TFD>,
    ctx0: &LayoutCtx,
    bc: &BoxConstraints,
    data: &TabsState<TFD>,
    env: &Env,
    sizes: Seq<Size>,
    post: &TabBar<TFD>,
    ctx1: &LayoutCtx,
    size: Size,
)
    requires
        pre.spec_wf(),
        post.spec_wf(),
        bc.wf(),
        TabBar::layout_from(pre, ctx0, bc, data, env, sizes, post, ctx1, size),
    ensures
        edges_rising(post.tabs@, post.axis),
{
    let n = pre.tabs@.len() as int;
    let axis = pre.axis;
    let tallest = spec_tallest(sizes, axis, n);
    let step = label_laid_step(pre.tabs@, bc, data, env, sizes, post.tabs@);
    let trail = choose|trail: Seq<LayoutCtx>| threaded(step, n, trail, *ctx0, *ctx1);
    assert(threaded(step, n, trail, *ctx0, *ctx1));
    assert(keys_of(post.tabs@).len() == keys_of(pre.tabs@).len());
    assert forall|p: int| 0 <= p < sizes.len() implies (#[trigger] sizes[p]).wf() by {
        assert(step(p, trail[p], trail[p + 1]));
        assert(pre.tabs@[p].1 is Some);
        let node = pre.tabs@[p].1->0;
        let laid = Pod {
            state: PodState {
                layout_rect: spec_laid_rect(&node, sizes[p]),
                ..post.tabs@[p].1->0.state
            },
            ..post.tabs@[p].1->0
        };
        lemma_laid_size_wf(&node, &trail[p], bc, data, env, &laid, &trail[p + 1], sizes[p]);
    }
    assert forall|i: int, j: int| 0 <= i <= j < post.tabs@.len() implies spec_far(
        post.tabs@[i],
        post.axis,
    ) <= spec_far(post.tabs@[j], post.axis) by {
        assert(post.tabs@[i].1 is Some);
        assert(post.tabs@[j].1 is Some);
        lemma_placed_far(sizes, axis, i, tallest);
        lemma_placed_far(sizes, axis, j, tallest);
        lemma_offsets_rise(sizes, axis, i + 1, j + 1);
    }
}

} // verus!
