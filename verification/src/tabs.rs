//! The tab container: a bar of labels and a body that shows the selected
//! tab, over a state of their own that holds the selected place.

use vstd::prelude::*;
use crate::context::{
    Env, EventCtx, LayoutCtx, LifeCycleCtx, PaintCtx, PaintOp, Requests, UpdateCtx, BORDER_DARK,
};
use crate::data::Data;
use crate::event::{Event, IdSource, LifeCycle, WidgetId};
use crate::geometry::{
    max_i64, sat_add, sat_sub, saturate, spec_max, Axis, BoxConstraints, CrossAxisAlignment,
    Point, Rect, Size, INFINITE,
};
use crate::keyed::{distinct, keys_of};
use crate::scope::{Scope, ScopeContent};
use crate::tab_bar::{TabBar, TabOrientation};
use crate::tab_body::TabsBody;
use crate::slots::spec_laid_rect;

use crate::tab_policy::{
    AddTab, InitialTab, StaticTabs, TabsFromData, TabsScopePolicy, TabsState,
};
use crate::widget::{Pod, PodState, Widget};

verus! {

/// The room left free around the body of the tabs on each side: its
/// padding and its border.
pub const BODY_INSET: i64 = 6;

/// The bar and the body of a tab container, one behind the other across
/// the axis of the bar.
pub struct TabsLayout<TFD: TabsFromData> {
    pub bar: Pod<TabsState<TFD>, TabBar<TFD>>,
    pub body: Pod<TabsState<TFD>, TabsBody<TFD>>,
    /// The axis along which bar and body follow each other.
    pub axis: Axis,
    /// Whether the bar comes before the body.
    pub bar_first: bool,
}

impl<TFD: TabsFromData> TabsLayout<TFD> {
    pub fn new(
        ids: &mut IdSource,
        bar: TabBar<TFD>,
        body: TabsBody<TFD>,
        axis: Axis,
        bar_first: bool,
    ) -> (r: Self)
        requires
            bar.spec_wf(),
            body.spec_wf(),
        ensures
            r.spec_wf(),
            r.axis == axis,
            r.bar_first == bar_first,
            r.bar.inner == bar,
            r.body.inner == body,
            r.bar.old_data is None,
            r.body.old_data is None,
            r.bar.state == PodState::spec_initial(WidgetId(old(ids).next)),
            r.body.state == PodState::spec_initial(
                WidgetId(IdSource::after_draw(old(ids).next)),
            ),
            final(ids).next == IdSource::after_draw(IdSource::after_draw(old(ids).next)),
    {
        let bar = Pod::new(ids, bar);
        let body = Pod::new(ids, body);
        TabsLayout { bar, body, axis, bar_first }
    }

    pub open spec fn spec_wf(&self) -> bool {
        self.bar.wf() && self.body.wf()
    }

    /// A side of the body's constraints as the least size: the body fills
    /// the room it is given, unless the room is unbounded.
    pub open spec fn spec_filling(max: i64) -> i64 {
        if max == INFINITE {
            0
        } else {
            max
        }
    }

    /// The constraints of the body, given the size that the bar took: the
    /// body fills what the bar leaves along the axis, less the room around
    /// the body.
    pub open spec fn spec_body_constraints(axis: Axis, bc: &BoxConstraints, bar: Size) -> BoxConstraints {
        let room = (BoxConstraints {
            min: Size { width: 0, height: 0 },
            max: axis.spec_pack_size(
                spec_max(0, saturate(axis.spec_major(bc.max) - axis.spec_major(bar)) as int) as i64,
                axis.spec_minor(bc.max),
            ),
        }).spec_shrink((2 * BODY_INSET) as i64, (2 * BODY_INSET) as i64).max;
        BoxConstraints {
            min: Size {
                width: Self::spec_filling(room.width),
                height: Self::spec_filling(room.height),
            },
            max: room,
        }
    }

    fn filling(max: i64) -> (r: i64)
        ensures
            r == Self::spec_filling(max),
    {
        if max == INFINITE {
            0
        } else {
            max
        }
    }

    fn body_constraints(axis: Axis, bc: &BoxConstraints, bar: Size) -> (r: BoxConstraints)
        ensures
            r == Self::spec_body_constraints(axis, bc, bar),
            bc.wf() ==> r.wf(),
    {
        let room = max_i64(0, sat_sub(axis.major(bc.max), axis.major(bar)));
        let whole = BoxConstraints {
            min: Size { width: 0, height: 0 },
            max: axis.pack_size(room, axis.minor(bc.max)),
        };
        let max = whole.shrink(2 * BODY_INSET, 2 * BODY_INSET).max;
        BoxConstraints {
            min: Size { width: Self::filling(max.width), height: Self::filling(max.height) },
            max,
        }
    }

    /// Where the bar lies, given the sizes that bar and body took.
    pub open spec fn spec_bar_origin(axis: Axis, bar_first: bool, body: Size) -> Point {
        if bar_first {
            Point { x: 0, y: 0 }
        } else {
            axis.spec_pack_point(saturate(axis.spec_major(body) + 2 * BODY_INSET), 0)
        }
    }

    /// Where the body lies, given the sizes that bar and body took.
    pub open spec fn spec_body_origin(axis: Axis, bar_first: bool, bar: Size) -> Point {
        if bar_first {
            axis.spec_pack_point(saturate(axis.spec_major(bar) + BODY_INSET), BODY_INSET)
        } else {
            axis.spec_pack_point(BODY_INSET, BODY_INSET)
        }
    }

    /// The size that bar and body need together.
    pub open spec fn spec_needed(axis: Axis, bar: Size, body: Size) -> Size {
        axis.spec_pack_size(
            saturate(saturate(axis.spec_major(bar) + axis.spec_major(body)) + 2 * BODY_INSET),
            spec_max(
                axis.spec_minor(bar) as int,
                saturate(axis.spec_minor(body) + 2 * BODY_INSET) as int,
            ) as i64,
        )
    }

    /// One event phase, told with the context `mid` and the data `between`
    /// as the first of the two parts left them.
    pub open spec fn event_from(
        pre: &Self,
        ctx0: &EventCtx,
        event: &Event,
        data0: &TabsState<TFD>,
        env: &Env,
        mid: &EventCtx,
        between: &TabsState<TFD>,
        post: &Self,
        ctx1: &EventCtx,
        data1: &TabsState<TFD>,
    ) -> bool {
        &&& post.axis == pre.axis
        &&& post.bar_first == pre.bar_first
        &&& if pre.bar_first {
            &&& Pod::event_post(&pre.bar, ctx0, event, data0, env, &post.bar, mid, between)
            &&& Pod::event_post(&pre.body, mid, event, between, env, &post.body, ctx1, data1)
        } else {
            &&& Pod::event_post(&pre.body, ctx0, event, data0, env, &post.body, mid, between)
            &&& Pod::event_post(&pre.bar, mid, event, between, env, &post.bar, ctx1, data1)
        }
    }

    /// One lifecycle phase, told with the context `mid` as the first of the
    /// two parts left it.
    pub open spec fn lifecycle_from(
        pre: &Self,
        ctx0: &LifeCycleCtx,
        event: &LifeCycle,
        data: &TabsState<TFD>,
        env: &Env,
        mid: &LifeCycleCtx,
        post: &Self,
        ctx1: &LifeCycleCtx,
    ) -> bool {
        &&& post.axis == pre.axis
        &&& post.bar_first == pre.bar_first
        &&& if pre.bar_first {
            &&& Pod::lifecycle_post(&pre.bar, ctx0, event, data, env, &post.bar, mid)
            &&& Pod::lifecycle_post(&pre.body, mid, event, data, env, &post.body, ctx1)
        } else {
            &&& Pod::lifecycle_post(&pre.body, ctx0, event, data, env, &post.body, mid)
            &&& Pod::lifecycle_post(&pre.bar, mid, event, data, env, &post.bar, ctx1)
        }
    }

    /// One update phase, told with the context `mid` as the first of the
    /// two parts left it.
    pub open spec fn update_from(
        pre: &Self,
        ctx0: &UpdateCtx,
        data: &TabsState<TFD>,
        env: &Env,
        mid: &UpdateCtx,
        post: &Self,
        ctx1: &UpdateCtx,
    ) -> bool {
        &&& post.axis == pre.axis
        &&& post.bar_first == pre.bar_first
        &&& if pre.bar_first {
            &&& Pod::update_post(&pre.bar, ctx0, data, env, &post.bar, mid)
            &&& Pod::update_post(&pre.body, mid, data, env, &post.body, ctx1)
        } else {
            &&& Pod::update_post(&pre.body, ctx0, data, env, &post.body, mid)
            &&& Pod::update_post(&pre.bar, mid, data, env, &post.bar, ctx1)
        }
    }

    /// `placed` is `laid` moved to `origin`.
    pub open spec fn moved_to<W>(
        laid: &Pod<TabsState<TFD>, W>,
        origin: Point,
        placed: &Pod<TabsState<TFD>, W>,
    ) -> bool {
        *placed == (Pod {
            state: PodState {
                layout_rect: laid.state.layout_rect.spec_with_origin(origin),
                ..laid.state
            },
            ..*laid
        })
    }

    /// One layout phase, told with bar and body as their layouts left them,
    /// the sizes they took, and the context `mid` that the bar left.
    pub open spec fn layout_from(
        pre: &Self,
        ctx0: &LayoutCtx,
        bc: &BoxConstraints,
        data: &TabsState<TFD>,
        env: &Env,
        bar: &Pod<TabsState<TFD>, TabBar<TFD>>,
        bar_size: Size,
        mid: &LayoutCtx,
        body: &Pod<TabsState<TFD>, TabsBody<TFD>>,
        body_size: Size,
        post: &Self,
        ctx1: &LayoutCtx,
        size: Size,
    ) -> bool {
        &&& post.axis == pre.axis
        &&& post.bar_first == pre.bar_first
        &&& Pod::layout_post(&pre.bar, ctx0, &bc.spec_loosen(), data, env, bar, mid, bar_size)
        &&& Pod::layout_post(
            &pre.body,
            mid,
            &Self::spec_body_constraints(pre.axis, bc, bar_size),
            data,
            env,
            body,
            ctx1,
            body_size,
        )
        &&& Self::moved_to(bar, Self::spec_bar_origin(pre.axis, pre.bar_first, body_size), &post.bar)
        &&& Self::moved_to(body, Self::spec_body_origin(pre.axis, pre.bar_first, bar_size), &post.body)
        &&& size == bc.spec_constrain(Self::spec_needed(pre.axis, bar_size, body_size))
    }

    /// One paint phase, told with the surface `mid` as the first of the two
    /// parts left it and `framed` after the border of the body was drawn.
    pub open spec fn paint_from(
        pre: &Self,
        ctx0: &PaintCtx,
        data: &TabsState<TFD>,
        env: &Env,
        framed: &PaintCtx,
        mid: &PaintCtx,
        post: &Self,
        ctx1: &PaintCtx,
    ) -> bool {
        &&& post.axis == pre.axis
        &&& post.bar_first == pre.bar_first
        &&& framed.frame == ctx0.frame
        &&& framed.ops@ == ctx0.ops@.push(
            PaintOp::StrokeRect {
                rect: pre.body.state.layout_rect,
                colour: env.spec_colour(BORDER_DARK),
                width: 1,
            },
        )
        &&& if pre.bar_first {
            &&& Pod::paint_post(&pre.bar, framed, data, env, &post.bar, mid)
            &&& Pod::paint_post(&pre.body, mid, data, env, &post.body, ctx1)
        } else {
            &&& Pod::paint_post(&pre.body, framed, data, env, &post.body, mid)
            &&& Pod::paint_post(&pre.bar, mid, data, env, &post.bar, ctx1)
        }
    }
}

impl<TFD: TabsFromData> Widget<TabsState<TFD>> for TabsLayout<TFD> {
    open spec fn wf(&self) -> bool {
        self.spec_wf()
    }

    /// The two parts hear the event one after the other, the one that
    /// comes first in the layout first.
    open spec fn event_post(
        pre: &Self,
        ctx0: &EventCtx,
        event: &Event,
        data0: &TabsState<TFD>,
        env: &Env,
        post: &Self,
        ctx1: &EventCtx,
        data1: &TabsState<TFD>,
    ) -> bool {
        exists|mid: EventCtx, between: TabsState<TFD>| #[trigger]
            Self::event_from(pre, ctx0, event, data0, env, &mid, &between, post, ctx1, data1)
    }

    open spec fn lifecycle_post(
        pre: &Self,
        ctx0: &LifeCycleCtx,
        event: &LifeCycle,
        data: &TabsState<TFD>,
        env: &Env,
        post: &Self,
        ctx1: &LifeCycleCtx,
    ) -> bool {
        exists|mid: LifeCycleCtx| #[trigger]
            Self::lifecycle_from(pre, ctx0, event, data, env, &mid, post, ctx1)
    }

    open spec fn update_post(
        pre: &Self,
        ctx0: &UpdateCtx,
        old_data: &TabsState<TFD>,
        data: &TabsState<TFD>,
        env: &Env,
        post: &Self,
        ctx1: &UpdateCtx,
    ) -> bool {
        exists|mid: UpdateCtx| #[trigger] Self::update_from(pre, ctx0, data, env, &mid, post, ctx1)
    }

    /// The bar takes the size it wants; the body gets what the bar leaves,
    /// less the room around it. The one that comes first lies at the
    /// origin, the other behind it.
    open spec fn layout_post(
        pre: &Self,
        ctx0: &LayoutCtx,
        bc: &BoxConstraints,
        data: &TabsState<TFD>,
        env: &Env,
        post: &Self,
        ctx1: &LayoutCtx,
        size: Size,
    ) -> bool {
        exists|
            bar: Pod<TabsState<TFD>, TabBar<TFD>>,
            bar_size: Size,
            mid: LayoutCtx,
            body: Pod<TabsState<TFD>, TabsBody<TFD>>,
            body_size: Size,
        | #[trigger]
            Self::layout_from(
                pre,
                ctx0,
                bc,
                data,
                env,
                &bar,
                bar_size,
                &mid,
                &body,
                body_size,
                post,
                ctx1,
                size,
            )
    }

    /// The border of the body is drawn, then the two parts paint in the
    /// order of the layout.
    open spec fn paint_post(
        pre: &Self,
        ctx0: &PaintCtx,
        data: &TabsState<TFD>,
        env: &Env,
        post: &Self,
        ctx1: &PaintCtx,
    ) -> bool {
        exists|framed: PaintCtx, mid: PaintCtx| #[trigger]
            Self::paint_from(pre, ctx0, data, env, &framed, &mid, post, ctx1)
    }

    fn event(&mut self, ctx: &mut EventCtx, event: &Event, data: &mut TabsState<TFD>, env: &Env) {
        if self.bar_first {
            self.bar.event(ctx, event, data, env);
        } else {
            self.body.event(ctx, event, data, env);
        }
        let ghost mid = *ctx;
        let ghost between = *data;
        if self.bar_first {
            self.body.event(ctx, event, data, env);
        } else {
            self.bar.event(ctx, event, data, env);
        }
        proof {
            assert(Self::event_from(
                old(self),
                old(ctx),
                event,
                old(data),
                env,
                &mid,
                &between,
                self,
                ctx,
                data,
            ));
        }
    }

    fn lifecycle(
        &mut self,
        ctx: &mut LifeCycleCtx,
        event: &LifeCycle,
        data: &TabsState<TFD>,
        env: &Env,
    ) {
        if self.bar_first {
            self.bar.lifecycle(ctx, event, data, env);
        } else {
            self.body.lifecycle(ctx, event, data, env);
        }
        let ghost mid = *ctx;
        if self.bar_first {
            self.body.lifecycle(ctx, event, data, env);
        } else {
            self.bar.lifecycle(ctx, event, data, env);
        }
        proof {
            assert(Self::lifecycle_from(old(self), old(ctx), event, data, env, &mid, self, ctx));
        }
    }

    fn update(
        &mut self,
        ctx: &mut UpdateCtx,
        old_data: &TabsState<TFD>,
        data: &TabsState<TFD>,
        env: &Env,
    ) {
        if self.bar_first {
            self.bar.update(ctx, data, env);
        } else {
            self.body.update(ctx, data, env);
        }
        let ghost mid = *ctx;
        if self.bar_first {
            self.body.update(ctx, data, env);
        } else {
            self.bar.update(ctx, data, env);
        }
        proof {
            assert(Self::update_from(old(self), old(ctx), data, env, &mid, self, ctx));
        }
    }

    fn layout(
        &mut self,
        ctx: &mut LayoutCtx,
        bc: &BoxConstraints,
        data: &TabsState<TFD>,
        env: &Env,
    ) -> (size: Size) {
        let axis = self.axis;
        let bar_size = self.bar.layout(ctx, &bc.loosen(), data, env);
        let ghost bar = self.bar;
        let ghost mid = *ctx;
        let body_bc = Self::body_constraints(axis, bc, bar_size);
        let body_size = self.body.layout(ctx, &body_bc, data, env);
        let ghost body = self.body;
        if self.bar_first {
            self.bar.set_origin(Point::zero());
            self.body.set_origin(
                axis.pack_point(sat_add(axis.major(bar_size), BODY_INSET), BODY_INSET),
            );
        } else {
            self.body.set_origin(axis.pack_point(BODY_INSET, BODY_INSET));
            self.bar.set_origin(
                axis.pack_point(sat_add(axis.major(body_size), 2 * BODY_INSET), 0),
            );
        }
        let needed = axis.pack_size(
            sat_add(sat_add(axis.major(bar_size), axis.major(body_size)), 2 * BODY_INSET),
            max_i64(axis.minor(bar_size), sat_add(axis.minor(body_size), 2 * BODY_INSET)),
        );
        let size = bc.constrain(needed);
        proof {
            assert(Self::layout_from(
                old(self),
                old(ctx),
                bc,
                data,
                env,
                &bar,
                bar_size,
                &mid,
                &body,
                body_size,
                self,
                ctx,
                size,
            ));
        }
        size
    }

    fn paint(&mut self, ctx: &mut PaintCtx, data: &TabsState<TFD>, env: &Env) {
        ctx.stroke_rect(self.body.layout_rect(), env.colour(BORDER_DARK), 1);
        let ghost framed = *ctx;
        if self.bar_first {
            self.bar.paint(ctx, data, env);
        } else {
            self.body.paint(ctx, data, env);
        }
        let ghost mid = *ctx;
        if self.bar_first {
            self.body.paint(ctx, data, env);
        } else {
            self.bar.paint(ctx, data, env);
        }
        proof {
            assert(Self::paint_from(old(self), old(ctx), data, env, &framed, &mid, self, ctx));
        }
    }
}

/// What a tab container holds: the tabs it is being built from, a policy
/// that is complete, or, once it has joined the tree, the scope that runs
/// bar and body.
#[allow(inconsistent_fields)]
pub enum TabsContent<TFD: TabsFromData> {
    Building { tabs: TFD::Build },
    Complete { tabs: TFD },
    Running { scope: Pod<TFD::T, Scope<TabsScopePolicy<TFD>, TabsLayout<TFD>>> },
    Swapping,
}

/// A widget that shows one of several bodies, chosen on a bar of labels.
pub struct Tabs<TFD: TabsFromData> {
    pub axis: Axis,
    pub cross: CrossAxisAlignment,
    pub rotation: TabOrientation,
    pub content: TabsContent<TFD>,
}

impl<T: Data, W: Widget<T>> Tabs<StaticTabs<T, W>> {
    /// A container without tabs, to which tabs are added while it is built.
    pub fn new() -> (r: Self)
        ensures
            r.spec_wf(),
            r.axis == Axis::Horizontal,
            r.cross == CrossAxisAlignment::Start,
            r.rotation == TabOrientation::Standard,
            r.content is Building,
            r.content->Building_tabs@ == Seq::<InitialTab<W>>::empty(),
    {
        Tabs::building(Vec::new())
    }
}

impl<TFD: TabsFromData> Tabs<TFD> {
    /// What is being built can be built, and what runs is well-formed.
    pub open spec fn spec_wf(&self) -> bool {
        match self.content {
            TabsContent::Building { tabs } => TFD::build_wf(&tabs),
            TabsContent::Running { scope } => scope.wf(),
            _ => true,
        }
    }

    /// A container along the horizontal axis around `content`.
    pub fn with_content(content: TabsContent<TFD>) -> (r: Self)
        ensures
            r.axis == Axis::Horizontal,
            r.cross == CrossAxisAlignment::Start,
            r.rotation == TabOrientation::Standard,
            r.content == content,
    {
        Tabs {
            axis: Axis::Horizontal,
            cross: CrossAxisAlignment::Start,
            rotation: TabOrientation::Standard,
            content,
        }
    }

    /// A container whose tabs the policy derives from the data.
    pub fn of(tabs: TFD) -> (r: Self)
        ensures
            r.spec_wf(),
            r.axis == Axis::Horizontal,
            r.cross == CrossAxisAlignment::Start,
            r.rotation == TabOrientation::Standard,
            r.content == (TabsContent::<TFD>::Complete { tabs }),
    {
        Self::with_content(TabsContent::Complete { tabs })
    }

    /// A container that is built from `tabs_from_data`, to which tabs can
    /// still be added.
    pub fn building(tabs_from_data: TFD::Build) -> (r: Self) where TFD: AddTab
        requires
            TFD::build_wf(&tabs_from_data),
        ensures
            r.spec_wf(),
            r.axis == Axis::Horizontal,
            r.cross == CrossAxisAlignment::Start,
            r.rotation == TabOrientation::Standard,
            r.content == (TabsContent::<TFD>::Building { tabs: tabs_from_data }),
    {
        Self::with_content(TabsContent::Building { tabs: tabs_from_data })
    }

    /// This container with the bar along `axis`.
    pub fn with_axis(self, axis: Axis) -> (r: Self)
        ensures
            r == (Tabs { axis, ..self }),
    {
        let mut this = self;
        this.axis = axis;
        this
    }

    /// This container with the labels turned as `rotation` says.
    pub fn with_rotation(self, rotation: TabOrientation) -> (r: Self)
        ensures
            r == (Tabs { rotation, ..self }),
    {
        let mut this = self;
        this.rotation = rotation;
        this
    }

    /// This container with the bar on the side that `cross` names: at the
    /// end behind the body, otherwise before it.
    pub fn with_cross_axis_alignment(self, cross: CrossAxisAlignment) -> (r: Self)
        ensures
            r == (Tabs { cross, ..self }),
    {
        let mut this = self;
        this.cross = cross;
        this
    }

    /// What adding a tab makes of the container: a container that is being
    /// built has one tab more, any other stays as it is.
    pub open spec fn tab_added(
        pre: &Self,
        name: String,
        child: TFD::BodyWidget,
        post: &Self,
        accepted: bool,
    ) -> bool where TFD: AddTab {
        &&& post.axis == pre.axis
        &&& post.cross == pre.cross
        &&& post.rotation == pre.rotation
        &&& accepted == pre.content is Building
        &&& match pre.content {
            TabsContent::Building { tabs } => post.content is Building && TFD::added_spec(
                &tabs,
                name,
                child,
                &post.content->Building_tabs,
            ),
            _ => post.content == pre.content,
        }
    }

    /// This container with one tab more.
    pub fn with_tab(self, name: String, child: TFD::BodyWidget) -> (r: Self) where TFD: AddTab
        requires
            self.spec_wf(),
            child.wf(),
        ensures
            r.spec_wf(),
            Self::tab_added(&self, name, child, &r, self.content is Building),
    {
        let mut this = self;
        this.add_tab(name, child);
        this
    }

    /// Adds a tab to a container that is being built. A container that is
    /// complete or runs takes none: the answer is `false` and nothing
    /// changes.
    pub fn add_tab(&mut self, name: String, child: TFD::BodyWidget) -> (accepted: bool) where
        TFD: AddTab,

        requires
            old(self).spec_wf(),
            child.wf(),
        ensures
            final(self).spec_wf(),
            Self::tab_added(old(self), name, child, final(self), accepted),
    {
        match &mut self.content {
            TabsContent::Building { tabs } => {
                TFD::add_tab(tabs, name, child);
                true
            },
            _ => false,
        }
    }

    /// A container like this one with the tabs of another policy.
    pub fn with_tabs<TabsFromD: TabsFromData>(self, tabs: TabsFromD) -> (r: Tabs<TabsFromD>)
        ensures
            r.spec_wf(),
            r.axis == self.axis,
            r.cross == self.cross,
            r.rotation == self.rotation,
            r.content == (TabsContent::<TabsFromD>::Complete { tabs }),
    {
        Tabs {
            axis: self.axis,
            cross: self.cross,
            rotation: self.rotation,
            content: TabsContent::Complete { tabs },
        }
    }

    /// `scope` is the scope of a container with this shape, newly made for
    /// the policy and the bodies given: a scope that has not made its state,
    /// which will start with the first tab selected; inside it a bar
    /// without labels and a body that holds the given bodies, each under its
    /// key; every node in its initial state.
    pub open spec fn scope_made(
        pre: &Self,
        ids0: &IdSource,
        tabs_from_data: TFD,
        bodies: Seq<(u64, TFD::BodyWidget)>,
        scope: &Pod<TFD::T, Scope<TabsScopePolicy<TFD>, TabsLayout<TFD>>>,
        ids1: &IdSource,
    ) -> bool {
        let inside = scope.inner.inner;
        let bar = inside.inner.bar;
        let body = inside.inner.body;
        &&& ids0.next <= ids1.next
        &&& scope.state == PodState::spec_initial(scope.state.id)
        &&& ids0.next <= scope.state.id.0 <= ids1.next
        &&& scope.old_data is None
        &&& scope.inner.content == (ScopeContent::<TabsScopePolicy<TFD>>::Policy {
            policy: Some(TabsScopePolicy { tabs_from_data, selected: 0 }),
        })
        &&& inside.state == PodState::spec_initial(inside.state.id)
        &&& inside.old_data is None
        &&& inside.inner.axis == pre.axis.spec_cross()
        &&& inside.inner.bar_first == (pre.cross != CrossAxisAlignment::End)
        &&& bar.state == PodState::spec_initial(bar.state.id)
        &&& bar.old_data is None
        &&& bar.inner.axis == pre.axis
        &&& bar.inner.cross == pre.cross
        &&& bar.inner.orientation == pre.rotation
        &&& bar.inner.tabs@.len() == 0
        &&& bar.inner.hot is None
        &&& body.state == PodState::spec_initial(body.state.id)
        &&& body.old_data is None
        &&& body.inner.axis == pre.axis
        &&& body.inner.transition is None
        &&& keys_of(body.inner.children@) == keys_of(bodies)
        &&& forall|i: int|
            0 <= i < bodies.len() ==> {
                let slot = (#[trigger] body.inner.children@[i]).1;
                &&& slot is Some
                &&& slot->0.inner == bodies[i].1
                &&& slot->0.old_data is None
                &&& slot->0.state == PodState::spec_initial(slot->0.state.id)
                &&& ids0.next <= slot->0.state.id.0 <= ids1.next
            }
    }

    /// Makes the scope that runs bar and body, for the policy and the
    /// bodies that were given with it.
    pub fn make_scope(
        &self,
        ids: &mut IdSource,
        tabs_from_data: TFD,
        bodies: Vec<(u64, TFD::BodyWidget)>,
    ) -> (r: Pod<TFD::T, Scope<TabsScopePolicy<TFD>, TabsLayout<TFD>>>)
        requires
            distinct(keys_of(bodies@)),
            forall|i: int| 0 <= i < bodies@.len() ==> (#[trigger] bodies@[i]).1.wf(),
        ensures
            r.wf(),
            Self::scope_made(self, old(ids), tabs_from_data, bodies@, &r, final(ids)),
    {
        let bar = TabBar::new(self.axis, self.cross, self.rotation);
        let body = TabsBody::with_bodies(ids, self.axis, bodies);
        let bar_first = match self.cross {
            CrossAxisAlignment::End => false,
            _ => true,
        };
        let layout = TabsLayout::new(ids, bar, body, self.axis.cross(), bar_first);
        let scope = Scope::new(ids, TabsScopePolicy::new(tabs_from_data, 0), layout);
        Pod::new(ids, scope)
    }

    /// The scope, once the container runs.
    pub open spec fn spec_running(&self) -> Option<
        Pod<TFD::T, Scope<TabsScopePolicy<TFD>, TabsLayout<TFD>>>,
    > {
        match self.content {
            TabsContent::Running { scope } => Some(scope),
            _ => None,
        }
    }

    /// The container has the shape of `pre`.
    pub open spec fn same_shape(pre: &Self, post: &Self) -> bool {
        &&& post.axis == pre.axis
        &&& post.cross == pre.cross
        &&& post.rotation == pre.rotation
    }

    /// Whether the notice is the one on which the container starts to run.
    pub open spec fn spec_starts(&self, event: &LifeCycle) -> bool {
        *event == LifeCycle::WidgetAdded && (self.content is Building || self.content is Complete)
    }

    /// The start of a container, told with the policy and the bodies that it
    /// starts from, the scope `started` as it was made, and the context
    /// `mid` that the making left.
    pub open spec fn started_from(
        pre: &Self,
        ctx0: &LifeCycleCtx,
        tabs_from_data: TFD,
        bodies: Seq<(u64, TFD::BodyWidget)>,
        started: &Pod<TFD::T, Scope<TabsScopePolicy<TFD>, TabsLayout<TFD>>>,
        mid: &LifeCycleCtx,
    ) -> bool {
        &&& match pre.content {
            TabsContent::Building { tabs } => TFD::build_post(tabs, tabs_from_data, bodies),
            TabsContent::Complete { tabs } => tabs_from_data == tabs && bodies.len() == 0,
            _ => false,
        }
        &&& Self::scope_made(pre, &ctx0.ids, tabs_from_data, bodies, started, &mid.ids)
        &&& *mid == (LifeCycleCtx {
            ids: mid.ids,
            requests: Requests { children_changed: true, ..ctx0.requests },
            ..*ctx0
        })
    }

    /// One lifecycle phase in which the container starts to run.
    pub open spec fn lifecycle_from(
        pre: &Self,
        ctx0: &LifeCycleCtx,
        event: &LifeCycle,
        data: &TFD::T,
        env: &Env,
        tabs_from_data: TFD,
        bodies: Seq<(u64, TFD::BodyWidget)>,
        started: &Pod<TFD::T, Scope<TabsScopePolicy<TFD>, TabsLayout<TFD>>>,
        mid: &LifeCycleCtx,
        post: &Self,
        ctx1: &LifeCycleCtx,
    ) -> bool {
        &&& Self::started_from(pre, ctx0, tabs_from_data, bodies, started, mid)
        &&& post.content is Running
        &&& Pod::lifecycle_post(started, mid, event, data, env, &post.content->scope, ctx1)
    }

    fn start(&mut self, ctx: &mut LifeCycleCtx)
        requires
            old(self).spec_wf(),
            old(self).content is Building || old(self).content is Complete,
        ensures
            final(self).spec_wf(),
            Self::same_shape(old(self), final(self)),
            final(self).content is Running,
            exists|tabs_from_data: TFD, bodies: Seq<(u64, TFD::BodyWidget)>| #[trigger]
                Self::started_from(
                    old(self),
                    old(ctx),
                    tabs_from_data,
                    bodies,
                    &final(self).content->scope,
                    final(ctx),
                ),
    {
        let mut temp = TabsContent::Swapping;
        std::mem::swap(&mut self.content, &mut temp);
        match temp {
            TabsContent::Building { tabs } => {
                ctx.children_changed();
                let (tabs_from_data, bodies) = TFD::build(tabs);
                let ghost made = bodies@;
                let scope = self.make_scope(&mut ctx.ids, tabs_from_data, bodies);
                self.content = TabsContent::Running { scope };
                assert(Self::started_from(old(self), old(ctx), tabs_from_data, made, &scope, ctx));
            },
            TabsContent::Complete { tabs } => {
                ctx.children_changed();
                let bodies: Vec<(u64, TFD::BodyWidget)> = Vec::new();
                let ghost made = bodies@;
                assert(keys_of(bodies@) =~= Seq::<u64>::empty());
                let scope = self.make_scope(&mut ctx.ids, tabs, bodies);
                self.content = TabsContent::Running { scope };
                assert(Self::started_from(old(self), old(ctx), tabs, made, &scope, ctx));
            },
            other => {
                self.content = other;
            },
        }
    }
}

impl<TFD: TabsFromData> Widget<TFD::T> for Tabs<TFD> {
    open spec fn wf(&self) -> bool {
        self.spec_wf()
    }

    /// A container that runs hands the event to its scope; one that does
    /// not run ignores it.
    open spec fn event_post(
        pre: &Self,
        ctx0: &EventCtx,
        event: &Event,
        data0: &TFD::T,
        env: &Env,
        post: &Self,
        ctx1: &EventCtx,
        data1: &TFD::T,
    ) -> bool {
        match pre.content {
            TabsContent::Running { scope } => {
                &&& Self::same_shape(pre, post)
                &&& post.content is Running
                &&& Pod::event_post(
                    &scope,
                    ctx0,
                    event,
                    data0,
                    env,
                    &post.content->scope,
                    ctx1,
                    data1,
                )
            },
            _ => *post == *pre && *ctx1 == *ctx0 && *data1 == *data0,
        }
    }

    /// On the notice that it has joined the tree, a container that does not
    /// run yet makes its scope and runs from then on; the parent is told
    /// that the children changed. A container that runs hands every notice
    /// to its scope.
    open spec fn lifecycle_post(
        pre: &Self,
        ctx0: &LifeCycleCtx,
        event: &LifeCycle,
        data: &TFD::T,
        env: &Env,
        post: &Self,
        ctx1: &LifeCycleCtx,
    ) -> bool {
        if pre.spec_starts(event) {
            &&& Self::same_shape(pre, post)
            &&& exists|
                tabs_from_data: TFD,
                bodies: Seq<(u64, TFD::BodyWidget)>,
                started: Pod<TFD::T, Scope<TabsScopePolicy<TFD>, TabsLayout<TFD>>>,
                mid: LifeCycleCtx,
            | #[trigger]
                Self::lifecycle_from(
                    pre,
                    ctx0,
                    event,
                    data,
                    env,
                    tabs_from_data,
                    bodies,
                    &started,
                    &mid,
                    post,
                    ctx1,
                )
        } else {
            match pre.content {
                TabsContent::Running { scope } => {
                    &&& Self::same_shape(pre, post)
                    &&& post.content is Running
                    &&& Pod::lifecycle_post(
                        &scope,
                        ctx0,
                        event,
                        data,
                        env,
                        &post.content->scope,
                        ctx1,
                    )
                },
                _ => *post == *pre && *ctx1 == *ctx0,
            }
        }
    }

    open spec fn update_post(
        pre: &Self,
        ctx0: &UpdateCtx,
        old_data: &TFD::T,
        data: &TFD::T,
        env: &Env,
        post: &Self,
        ctx1: &UpdateCtx,
    ) -> bool {
        match pre.content {
            TabsContent::Running { scope } => {
                &&& Self::same_shape(pre, post)
                &&& post.content is Running
                &&& Pod::update_post(&scope, ctx0, data, env, &post.content->scope, ctx1)
            },
            _ => *post == *pre && *ctx1 == *ctx0,
        }
    }

    /// A container that runs takes the size of its scope, which it places
    /// at the origin; one that does not run takes the least size allowed.
    open spec fn layout_post(
        pre: &Self,
        ctx0: &LayoutCtx,
        bc: &BoxConstraints,
        data: &TFD::T,
        env: &Env,
        post: &Self,
        ctx1: &LayoutCtx,
        size: Size,
    ) -> bool {
        match pre.content {
            TabsContent::Running { scope } => {
                &&& Self::same_shape(pre, post)
                &&& post.content is Running
                &&& Pod::layout_post(
                    &scope,
                    ctx0,
                    bc,
                    data,
                    env,
                    &(Pod {
                        state: PodState {
                            layout_rect: spec_laid_rect(&scope, size),
                            ..post.content->scope.state
                        },
                        ..post.content->scope
                    }),
                    ctx1,
                    size,
                )
                &&& post.content->scope.state.layout_rect == Rect::spec_from_origin_size(
                    Point { x: 0, y: 0 },
                    size,
                )
            },
            _ => *post == *pre && *ctx1 == *ctx0 && size == bc.min,
        }
    }

    open spec fn paint_post(
        pre: &Self,
        ctx0: &PaintCtx,
        data: &TFD::T,
        env: &Env,
        post: &Self,
        ctx1: &PaintCtx,
    ) -> bool {
        match pre.content {
            TabsContent::Running { scope } => {
                &&& Self::same_shape(pre, post)
                &&& post.content is Running
                &&& Pod::paint_post(&scope, ctx0, data, env, &post.content->scope, ctx1)
            },
            _ => *post == *pre && *ctx1 == *ctx0,
        }
    }

    fn event(&mut self, ctx: &mut EventCtx, event: &Event, data: &mut TFD::T, env: &Env) {
        match &mut self.content {
            TabsContent::Running { scope } => {
                scope.event(ctx, event, data, env);
            },
            _ => {},
        }
    }

    fn lifecycle(&mut self, ctx: &mut LifeCycleCtx, event: &LifeCycle, data: &TFD::T, env: &Env) {
        let starts = match event {
            LifeCycle::WidgetAdded => match &self.content {
                TabsContent::Building { .. } => true,
                TabsContent::Complete { .. } => true,
                _ => false,
            },
            _ => false,
        };
        if starts {
            self.start(ctx);
            let ghost started = self.content->scope;
            let ghost mid = *ctx;
            let ghost made = choose|tabs_from_data: TFD, bodies: Seq<(u64, TFD::BodyWidget)>|
                Self::started_from(old(self), old(ctx), tabs_from_data, bodies, &started, &mid);
            match &mut self.content {
                TabsContent::Running { scope } => {
                    scope.lifecycle(ctx, event, data, env);
                },
                _ => {},
            }
            proof {
                assert(Self::lifecycle_from(
                    old(self),
                    old(ctx),
                    event,
                    data,
                    env,
                    made.0,
                    made.1,
                    &started,
                    &mid,
                    self,
                    ctx,
                ));
            }
        } else {
            match &mut self.content {
                TabsContent::Running { scope } => {
                    scope.lifecycle(ctx, event, data, env);
                },
                _ => {},
            }
        }
    }

    fn update(&mut self, ctx: &mut UpdateCtx, old_data: &TFD::T, data: &TFD::T, env: &Env) {
        match &mut self.content {
            TabsContent::Running { scope } => {
                scope.update(ctx, data, env);
            },
            _ => {},
        }
    }

    fn layout(&mut self, ctx: &mut LayoutCtx, bc: &BoxConstraints, data: &TFD::T, env: &Env) -> (size:
        Size) {
        match &mut self.content {
            TabsContent::Running { scope } => {
                let size = scope.layout(ctx, bc, data, env);
                let ghost laid = *scope;
                scope.set_layout_rect(Rect::from_origin_size(Point::zero(), size));
                proof {
                    assert(laid == (Pod {
                        state: PodState {
                            layout_rect: spec_laid_rect(&old(self).content->scope, size),
                            ..scope.state
                        },
                        ..*scope
                    }));
                }
                size
            },
            _ => bc.min(),
        }
    }

    fn paint(&mut self, ctx: &mut PaintCtx, data: &TFD::T, env: &Env) {
        match &mut self.content {
            TabsContent::Running { scope } => {
                scope.paint(ctx, data, env);
            },
            _ => {},
        }
    }
}

} // verus!
