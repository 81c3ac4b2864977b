//! A container that shows a window onto a child that may be larger than it,
//! and moves the window with the wheel.

use vstd::prelude::*;
use std::marker::PhantomData;
use crate::binding::{Bindable, BindableProperty};
use crate::context::{
    spec_size_warnings, Env, EventCtx, Frame, LayoutCtx, LifeCycleCtx, PaintCtx, PaintOp,
    Requests, UpdateCtx,
};
use crate::data::Data;
use crate::event::{Event, IdSource, LifeCycle, WidgetId};
use crate::geometry::{
    max_i64, min_i64, sat_add, sat_sub, saturate, spec_max, spec_min, Axis, BoxConstraints, Point,
    Rect, Size, Vec2, INFINITE,
};
use crate::widget::{Pod, PodState, Widget};

verus! {

/// The axes along which a scroll container moves its window.
#[derive(Clone, Copy, Debug, PartialEq, Eq, Structural)]
pub enum ScrollDirection {
    Bidirectional,
    Vertical,
    Horizontal,
}

/// The scrollbars that a scroll container shows.
#[derive(Clone, Copy, Debug, PartialEq, Eq, Structural)]
pub enum ScrollbarsEnabled {
    Neither,
    Vertical,
    Horizontal,
    Both,
}

/// A window onto a content: where it lies over the content, how large it is,
/// and how large the content is.
#[derive(Clone, Copy, Debug, PartialEq, Eq, Structural)]
pub struct Viewport {
    pub content_size: Size,
    pub origin: Point,
    pub view_size: Size,
}

/// The nearest place to `wanted` at which a window of extent `view` lies
/// over a content of extent `content`: not before its start and, where the
/// content is the larger, not beyond its end.
pub open spec fn spec_clamp_offset(wanted: i64, content: i64, view: i64) -> i64 {
    spec_max(0, spec_min(wanted as int, saturate(content - view) as int)) as i64
}

pub fn clamp_offset(wanted: i64, content: i64, view: i64) -> (r: i64)
    ensures
        r == spec_clamp_offset(wanted, content, view),
        r >= 0,
{
    max_i64(0, min_i64(wanted, sat_sub(content, view)))
}

/// How far `val` lies outside `min..=max`, with its sign.
pub open spec fn spec_outside(val: i64, min: i64, max: i64) -> i64 {
    if val > max {
        saturate(val - max)
    } else if val < min {
        saturate(val - min)
    } else {
        0
    }
}

pub fn outside(val: i64, min: i64, max: i64) -> (r: i64)
    ensures
        r == spec_outside(val, min, max),
{
    if val > max {
        sat_sub(val, max)
    } else if val < min {
        sat_sub(val, min)
    } else {
        0
    }
}

/// Of two distances the one that is farther from zero; the second where
/// they are equally far.
pub open spec fn spec_farther(a: i64, b: i64) -> i64 {
    if spec_magnitude(a) > spec_magnitude(b) {
        a
    } else {
        b
    }
}

/// The distance of `a` from zero.
pub open spec fn spec_magnitude(a: i64) -> int {
    if a < 0 {
        -(a as int)
    } else {
        a as int
    }
}

pub fn farther(a: i64, b: i64) -> (r: i64)
    ensures
        r == spec_farther(a, b),
{
    let a_neg = a < 0;
    let b_neg = b < 0;
    let a_wins = if a_neg == b_neg {
        if a_neg {
            a < b
        } else {
            a > b
        }
    } else if a_neg {
        // a < 0 <= b: |a| > |b| iff -a > b iff a + b < 0
        a + b < 0
    } else {
        // b < 0 <= a: |a| > |b| iff a > -b iff a + b > 0
        a + b > 0
    };
    if a_wins {
        a
    } else {
        b
    }
}

impl Viewport {
    pub open spec fn spec_new() -> Viewport {
        Viewport {
            content_size: Size { width: 0, height: 0 },
            origin: Point { x: 0, y: 0 },
            view_size: Size { width: 0, height: 0 },
        }
    }

    /// A window of no size over no content.
    pub fn new() -> (r: Viewport)
        ensures
            r == Self::spec_new(),
            r.wf(),
    {
        Viewport { content_size: Size::zero(), origin: Point::zero(), view_size: Size::zero() }
    }

    /// Where the window lies as near to `wanted` as the content allows.
    pub open spec fn spec_clamp(self, wanted: Point) -> Point {
        Point {
            x: spec_clamp_offset(wanted.x, self.content_size.width, self.view_size.width),
            y: spec_clamp_offset(wanted.y, self.content_size.height, self.view_size.height),
        }
    }

    /// The window lies where the content allows.
    pub open spec fn wf(self) -> bool {
        self.origin == self.spec_clamp(self.origin)
    }

    pub fn clamp(self, wanted: Point) -> (r: Point)
        ensures
            r == self.spec_clamp(wanted),
    {
        Point {
            x: clamp_offset(wanted.x, self.content_size.width, self.view_size.width),
            y: clamp_offset(wanted.y, self.content_size.height, self.view_size.height),
        }
    }

    /// The window moved as near to `wanted` as the content allows.
    pub open spec fn spec_pan_to(self, wanted: Point) -> Viewport {
        Viewport { origin: self.spec_clamp(wanted), ..self }
    }

    /// Moves the window towards `wanted`. The answer says whether it moved.
    pub fn pan_to(&mut self, wanted: Point) -> (moved: bool)
        ensures
            *final(self) == old(self).spec_pan_to(wanted),
            moved == (final(self).origin != old(self).origin),
            final(self).wf(),
    {
        let target = self.clamp(wanted);
        let moved = target.x != self.origin.x || target.y != self.origin.y;
        self.origin = target;
        moved
    }

    /// Moves the window by `delta`, as far as the content allows.
    pub fn pan_by(&mut self, delta: Vec2) -> (moved: bool)
        ensures
            *final(self) == old(self).spec_pan_to(old(self).origin.spec_plus(delta)),
            moved == (final(self).origin != old(self).origin),
            final(self).wf(),
    {
        let wanted = self.origin.plus(delta);
        self.pan_to(wanted)
    }

    /// The place the window moves towards to show `region`: the least move
    /// that brings the region into the window. Of a region larger than the
    /// window the part nearest to its origin counts.
    pub open spec fn spec_target_for(self, region: Rect) -> Point {
        let width = spec_min(
            region.spec_size().width as int,
            self.view_size.width as int,
        ) as i64;
        let height = spec_min(
            region.spec_size().height as int,
            self.view_size.height as int,
        ) as i64;
        let view = Rect::spec_from_origin_size(self.origin, self.view_size);
        let x0 = spec_outside(region.x0, view.x0, view.x1);
        let x1 = spec_outside(saturate(region.x0 + width), view.x0, view.x1);
        let y0 = spec_outside(region.y0, view.y0, view.y1);
        let y1 = spec_outside(saturate(region.y0 + height), view.y0, view.y1);
        self.origin.spec_plus(Vec2 { x: spec_farther(x0, x1), y: spec_farther(y0, y1) })
    }

    /// Moves the window the least distance that shows `region`. The answer
    /// says whether it moved.
    pub fn pan_to_visible(&mut self, region: Rect) -> (moved: bool)
        ensures
            *final(self) == old(self).spec_pan_to(old(self).spec_target_for(region)),
            moved == (final(self).origin != old(self).origin),
            final(self).wf(),
    {
        let asked = region.size();
        let width = min_i64(asked.width, self.view_size.width);
        let height = min_i64(asked.height, self.view_size.height);
        let view = Rect::from_origin_size(self.origin, self.view_size);
        let x0 = outside(region.x0, view.x0, view.x1);
        let x1 = outside(sat_add(region.x0, width), view.x0, view.x1);
        let y0 = outside(region.y0, view.y0, view.y1);
        let y1 = outside(sat_add(region.y0, height), view.y0, view.y1);
        let wanted = self.origin.plus(Vec2 { x: farther(x0, x1), y: farther(y0, y1) });
        self.pan_to(wanted)
    }
}

/// Records a warning for each side of `size` that is unbounded.
pub fn log_size_warnings(ctx: &mut LayoutCtx, size: Size)
    ensures
        final(ctx).frame == old(ctx).frame,
        final(ctx).commands == old(ctx).commands,
        final(ctx).warnings@ == old(ctx).warnings@ + spec_size_warnings(
            old(ctx).frame.widget_id,
            size,
        ),
{
    let id = ctx.frame.widget_id;
    ctx.warn_of_size(id, size);
}

/// A container that scrolls its child.
///
/// The child is laid out without bound along each axis of scrolling, and
/// with the container's own bound along an axis that is locked.
pub struct Scroll<T, W> {
    pub child: Pod<T, W>,
    pub port: Viewport,
    pub scrollbars_enabled: ScrollbarsEnabled,
    pub direction: ScrollDirection,
}

/// Where the child lies in the frame of the container while the window is
/// at `origin`.
pub open spec fn spec_child_origin(origin: Point) -> Point {
    Point { x: saturate(-origin.x), y: saturate(-origin.y) }
}

impl<T, W> Scroll<T, W> {
    /// A container that scrolls in both directions.
    pub fn new(ids: &mut IdSource, child: W) -> (r: Self)
        ensures
            r.child.state == PodState::spec_initial(WidgetId(old(ids).next)),
            r.child.old_data is None,
            r.child.inner == child,
            r.port == Viewport::spec_new(),
            r.scrollbars_enabled == ScrollbarsEnabled::Both,
            r.direction == ScrollDirection::Bidirectional,
            final(ids).next == IdSource::after_draw(old(ids).next),
    {
        Scroll {
            child: Pod::new(ids, child),
            port: Viewport::new(),
            scrollbars_enabled: ScrollbarsEnabled::Both,
            direction: ScrollDirection::Bidirectional,
        }
    }

    /// This container scrolling up and down only; the child's width is locked.
    pub fn vertical(self) -> (r: Self)
        ensures
            r == (Scroll {
                direction: ScrollDirection::Vertical,
                scrollbars_enabled: ScrollbarsEnabled::Vertical,
                ..self
            }),
    {
        let mut this = self;
        this.direction = ScrollDirection::Vertical;
        this.scrollbars_enabled = ScrollbarsEnabled::Vertical;
        this
    }

    /// This container scrolling left and right only; the child's height is
    /// locked.
    pub fn horizontal(self) -> (r: Self)
        ensures
            r == (Scroll {
                direction: ScrollDirection::Horizontal,
                scrollbars_enabled: ScrollbarsEnabled::Horizontal,
                ..self
            }),
    {
        let mut this = self;
        this.direction = ScrollDirection::Horizontal;
        this.scrollbars_enabled = ScrollbarsEnabled::Horizontal;
        this
    }

    pub fn disable_scrollbars(self) -> (r: Self)
        ensures
            r == (Scroll { scrollbars_enabled: ScrollbarsEnabled::Neither, ..self }),
    {
        let mut this = self;
        this.scrollbars_enabled = ScrollbarsEnabled::Neither;
        this
    }

    pub fn only_vertical_scrollbar(self) -> (r: Self)
        ensures
            r == (Scroll { scrollbars_enabled: ScrollbarsEnabled::Vertical, ..self }),
    {
        let mut this = self;
        this.scrollbars_enabled = ScrollbarsEnabled::Vertical;
        this
    }

    pub fn only_horizontal_scrollbar(self) -> (r: Self)
        ensures
            r == (Scroll { scrollbars_enabled: ScrollbarsEnabled::Horizontal, ..self }),
    {
        let mut this = self;
        this.scrollbars_enabled = ScrollbarsEnabled::Horizontal;
        this
    }

    /// The child widget.
    pub fn child(&self) -> (r: &W)
        ensures
            *r == self.child.inner,
    {
        self.child.widget()
    }

    /// The child widget, to change it.
    pub fn child_mut(&mut self) -> (r: &mut W)
        ensures
            *r == old(self).child.inner,
            *final(self) == (Scroll {
                child: Pod { inner: *final(r), ..old(self).child },
                ..*old(self)
            }),
    {
        &mut self.child.inner
    }

    /// The size of the child.
    pub fn child_size(&self) -> (r: Size)
        ensures
            r == self.port.content_size,
    {
        self.port.content_size
    }

    /// How far the window has moved over the child.
    pub fn offset(&self) -> (r: Vec2)
        ensures
            r == self.port.origin.spec_to_vec2(),
    {
        self.port.origin.to_vec2()
    }

    /// How far the window has moved along `axis`.
    pub fn offset_for_axis(&self, axis: Axis) -> (r: i64)
        ensures
            r == axis.spec_major_pos(self.port.origin),
    {
        axis.major_pos(self.port.origin)
    }

    /// This container with the window where `port` has it, and the child
    /// placed to match.
    pub open spec fn spec_showing(self, port: Viewport) -> Self {
        Scroll {
            port,
            child: Pod {
                state: PodState {
                    layout_rect: self.child.state.layout_rect.spec_with_origin(
                        spec_child_origin(port.origin),
                    ),
                    ..self.child.state
                },
                ..self.child
            },
            ..self
        }
    }

    fn place_child(&mut self)
        ensures
            *final(self) == old(self).spec_showing(old(self).port),
    {
        let origin = Point { x: sat_sub(0, self.port.origin.x), y: sat_sub(0, self.port.origin.y) };
        self.child.set_origin(origin);
    }

    /// Moves the window by `delta`, as far as the child allows. The answer
    /// says whether the window moved.
    pub fn scroll_by(&mut self, delta: Vec2) -> (moved: bool)
        ensures
            *final(self) == old(self).spec_showing(
                old(self).port.spec_pan_to(old(self).port.origin.spec_plus(delta)),
            ),
            moved == (final(self).port.origin != old(self).port.origin),
    {
        let moved = self.port.pan_by(delta);
        self.place_child();
        moved
    }

    /// Moves the window the least distance that shows `region` of the
    /// child. Of a region larger than the window, the part nearest to the
    /// region's origin is shown. The answer says whether the window moved.
    pub fn scroll_to(&mut self, region: Rect) -> (moved: bool)
        ensures
            *final(self) == old(self).spec_showing(
                old(self).port.spec_pan_to(old(self).port.spec_target_for(region)),
            ),
            moved == (final(self).port.origin != old(self).port.origin),
    {
        let moved = self.port.pan_to_visible(region);
        self.place_child();
        moved
    }

    /// The place the window moves towards when it is sent to `position`
    /// along `axis`.
    pub open spec fn spec_along(origin: Point, axis: Axis, position: i64) -> Point {
        match axis {
            Axis::Horizontal => Point { x: position, y: origin.y },
            Axis::Vertical => Point { x: origin.x, y: position },
        }
    }

    /// Moves the window to `position` along `axis`, as far as the child
    /// allows. The answer says whether the window moved.
    pub fn scroll_to_direction(&mut self, axis: Axis, position: i64) -> (moved: bool)
        ensures
            *final(self) == old(self).spec_showing(
                old(self).port.spec_pan_to(Self::spec_along(old(self).port.origin, axis, position)),
            ),
            moved == (final(self).port.origin != old(self).port.origin),
    {
        let wanted = match axis {
            Axis::Horizontal => Point { x: position, y: self.port.origin.y },
            Axis::Vertical => Point { x: self.port.origin.x, y: position },
        };
        let moved = self.port.pan_to(wanted);
        self.place_child();
        moved
    }

    /// The constraints the child is laid out with.
    pub open spec fn spec_child_constraints(
        direction: ScrollDirection,
        bc: &BoxConstraints,
    ) -> BoxConstraints {
        BoxConstraints {
            min: Size { width: 0, height: 0 },
            max: Size {
                width: if direction == ScrollDirection::Vertical {
                    bc.max.width
                } else {
                    INFINITE
                },
                height: if direction == ScrollDirection::Horizontal {
                    bc.max.height
                } else {
                    INFINITE
                },
            },
        }
    }

    fn child_constraints(&self, bc: &BoxConstraints) -> (r: BoxConstraints)
        ensures
            r == Self::spec_child_constraints(self.direction, bc),
    {
        let width = match self.direction {
            ScrollDirection::Vertical => bc.max.width,
            _ => INFINITE,
        };
        let height = match self.direction {
            ScrollDirection::Horizontal => bc.max.height,
            _ => INFINITE,
        };
        BoxConstraints { min: Size { width: 0, height: 0 }, max: Size { width, height } }
    }
}

impl<T, W> Bindable for Scroll<T, W> {
}

impl<T: Data, W: Widget<T>> Scroll<T, W> {
    /// The context after the wheel has been seen to: a window that moved
    /// asks for paint and marks the event as handled.
    pub open spec fn spec_wheel_ctx(mid: &EventCtx, moved: bool) -> EventCtx {
        if moved {
            EventCtx {
                is_handled: true,
                requests: Requests { paint: true, ..mid.requests },
                ..*mid
            }
        } else {
            *mid
        }
    }

    /// One event phase, told with the child `seen` and the context `mid` as
    /// the child's turn left them.
    pub open spec fn event_from(
        pre: &Self,
        ctx0: &EventCtx,
        event: &Event,
        data0: &T,
        env: &Env,
        seen: &Pod<T, W>,
        mid: &EventCtx,
        post: &Self,
        ctx1: &EventCtx,
        data1: &T,
    ) -> bool {
        let after = Scroll { child: *seen, ..*pre };
        &&& Pod::event_post(&pre.child, ctx0, event, data0, env, seen, mid, data1)
        &&& if *event is Wheel && !mid.is_handled {
            &&& *post == after.spec_showing(
                pre.port.spec_pan_to(
                    pre.port.origin.spec_plus(event.spec_pointer()->0.wheel_delta),
                ),
            )
            &&& *ctx1 == Self::spec_wheel_ctx(mid, post.port.origin != pre.port.origin)
        } else {
            *post == after && *ctx1 == *mid
        }
    }

    /// One layout phase, told with the child `laid`, the context `mid` and
    /// the size `content` as the child's layout left them.
    pub open spec fn layout_from(
        pre: &Self,
        ctx0: &LayoutCtx,
        bc: &BoxConstraints,
        data: &T,
        env: &Env,
        laid: &Pod<T, W>,
        mid: &LayoutCtx,
        content: Size,
        post: &Self,
        ctx1: &LayoutCtx,
        size: Size,
    ) -> bool {
        &&& Pod::layout_post(
            &pre.child,
            ctx0,
            &Self::spec_child_constraints(pre.direction, bc),
            data,
            env,
            laid,
            mid,
            content,
        )
        &&& size == bc.spec_constrain(content)
        &&& *post == (Scroll { child: *laid, ..*pre }).spec_showing(
            (Viewport { content_size: content, view_size: size, ..pre.port }).spec_pan_to(
                pre.port.origin,
            ),
        )
        &&& ctx1.frame == mid.frame
        &&& ctx1.commands == mid.commands
        &&& ctx1.warnings@ == mid.warnings@ + spec_size_warnings(mid.frame.widget_id, size)
    }

    /// One paint phase, told with the surface `inside` as the child found
    /// it and `mid` as the child left it.
    pub open spec fn paint_from(
        pre: &Self,
        ctx0: &PaintCtx,
        data: &T,
        env: &Env,
        inside: &PaintCtx,
        mid: &PaintCtx,
        post: &Self,
        ctx1: &PaintCtx,
    ) -> bool {
        &&& inside.frame == ctx0.frame
        &&& inside.ops@ == ctx0.ops@.push(PaintOp::Save).push(
            PaintOp::Clip(pre.port.view_size.spec_to_rect()),
        )
        &&& Pod::paint_post(&pre.child, inside, data, env, &post.child, mid)
        &&& *post == (Scroll { child: post.child, ..*pre })
        &&& ctx1.frame == mid.frame
        &&& ctx1.ops@ == mid.ops@.push(PaintOp::Restore)
    }
}

impl<T: Data, W: Widget<T>> Widget<T> for Scroll<T, W> {
    open spec fn wf(&self) -> bool {
        self.child.wf() && self.port.wf()
    }

    /// The child has its turn first. A wheel event that the child left
    /// unhandled then moves the window.
    open spec fn event_post(
        pre: &Self,
        ctx0: &EventCtx,
        event: &Event,
        data0: &T,
        env: &Env,
        post: &Self,
        ctx1: &EventCtx,
        data1: &T,
    ) -> bool {
        exists|seen: Pod<T, W>, mid: EventCtx| #[trigger]
            Self::event_from(pre, ctx0, event, data0, env, &seen, &mid, post, ctx1, data1)
    }

    open spec fn lifecycle_post(
        pre: &Self,
        ctx0: &LifeCycleCtx,
        event: &LifeCycle,
        data: &T,
        env: &Env,
        post: &Self,
        ctx1: &LifeCycleCtx,
    ) -> bool {
        &&& Pod::lifecycle_post(&pre.child, ctx0, event, data, env, &post.child, ctx1)
        &&& *post == (Scroll { child: post.child, ..*pre })
    }

    open spec fn update_post(
        pre: &Self,
        ctx0: &UpdateCtx,
        old_data: &T,
        data: &T,
        env: &Env,
        post: &Self,
        ctx1: &UpdateCtx,
    ) -> bool {
        &&& Pod::update_post(&pre.child, ctx0, data, env, &post.child, ctx1)
        &&& *post == (Scroll { child: post.child, ..*pre })
    }

    /// The child is laid out, without bound along the axes of scrolling.
    /// The container takes the child's size as far as its own constraints
    /// allow, and the window is moved back to where the new sizes allow it
    /// to be.
    open spec fn layout_post(
        pre: &Self,
        ctx0: &LayoutCtx,
        bc: &BoxConstraints,
        data: &T,
        env: &Env,
        post: &Self,
        ctx1: &LayoutCtx,
        size: Size,
    ) -> bool {
        exists|laid: Pod<T, W>, mid: LayoutCtx, content: Size| #[trigger]
            Self::layout_from(pre, ctx0, bc, data, env, &laid, &mid, content, post, ctx1, size)
    }

    /// The child paints inside the window, moved by the offset.
    open spec fn paint_post(
        pre: &Self,
        ctx0: &PaintCtx,
        data: &T,
        env: &Env,
        post: &Self,
        ctx1: &PaintCtx,
    ) -> bool {
        exists|inside: PaintCtx, mid: PaintCtx| #[trigger]
            Self::paint_from(pre, ctx0, data, env, &inside, &mid, post, ctx1)
    }

    fn event(&mut self, ctx: &mut EventCtx, event: &Event, data: &mut T, env: &Env) {
        self.child.event(ctx, event, data, env);
        let ghost seen = self.child;
        let ghost mid = *ctx;
        match event {
            Event::Wheel(m) => {
                if !ctx.is_handled() {
                    if self.scroll_by(m.wheel_delta) {
                        ctx.request_paint();
                        ctx.set_handled();
                    }
                }
            },
            _ => {},
        }
        proof {
            assert(Self::event_from(old(self), old(ctx), event, old(data), env, &seen, &mid, self, ctx, data));
        }
    }

    fn lifecycle(&mut self, ctx: &mut LifeCycleCtx, event: &LifeCycle, data: &T, env: &Env) {
        self.child.lifecycle(ctx, event, data, env);
    }

    fn update(&mut self, ctx: &mut UpdateCtx, old_data: &T, data: &T, env: &Env) {
        self.child.update(ctx, data, env);
    }

    fn layout(&mut self, ctx: &mut LayoutCtx, bc: &BoxConstraints, data: &T, env: &Env) -> (size:
        Size) {
        let child_bc = self.child_constraints(bc);
        let content = self.child.layout(ctx, &child_bc, data, env);
        let ghost laid = self.child;
        let ghost mid = *ctx;
        let size = bc.constrain(content);
        log_size_warnings(ctx, size);
        self.port.content_size = content;
        self.port.view_size = size;
        let origin = self.port.origin;
        self.port.pan_to(origin);
        self.place_child();
        proof {
            assert(Self::layout_from(
                old(self),
                old(ctx),
                bc,
                data,
                env,
                &laid,
                &mid,
                content,
                self,
                ctx,
                size,
            ));
        }
        size
    }

    fn paint(&mut self, ctx: &mut PaintCtx, data: &T, env: &Env) {
        ctx.save();
        ctx.clip(self.port.view_size.to_rect());
        let ghost inside = *ctx;
        self.child.paint(ctx, data, env);
        let ghost mid = *ctx;
        ctx.restore();
        proof {
            assert(Self::paint_from(old(self), old(ctx), data, env, &inside, &mid, self, ctx));
        }
    }
}

/// The offset of a scroll container along one axis, as a property to bind.
pub struct ScrollToProperty<T, W> {
    pub direction: Axis,
    pub phantom: PhantomData<(T, W)>,
}

impl<T, W> ScrollToProperty<T, W> {
    pub fn new(direction: Axis) -> (r: Self)
        ensures
            r.direction == direction,
    {
        ScrollToProperty { direction, phantom: PhantomData }
    }
}

impl<T, W> BindableProperty for ScrollToProperty<T, W> {
    type Controlling = Scroll<T, W>;

    type Value = i64;

    type Change = ();

    /// The window is sent to the value, as far as the child allows.
    open spec fn written(
        &self,
        controlled: Scroll<T, W>,
        field_val: &i64,
        frame: Frame,
        env: &Env,
    ) -> Scroll<T, W> {
        controlled.spec_showing(
            controlled.port.spec_pan_to(
                Scroll::<T, W>::spec_along(controlled.port.origin, self.direction, *field_val),
            ),
        )
    }

    open spec fn write_requests(&self) -> Requests {
        Requests { paint: true, ..Requests::spec_none() }
    }

    /// A change is pending where the offset is not the value.
    open spec fn changes(
        &self,
        controlled: &Scroll<T, W>,
        field_val: &i64,
        change: Option<()>,
        env: &Env,
    ) -> Option<()> {
        if self.direction.spec_major_pos(controlled.port.origin) == *field_val {
            change
        } else {
            Some(())
        }
    }

    /// The value becomes the offset.
    open spec fn updated(&self, controlled: &Scroll<T, W>, field: i64, change: (), env: &Env) -> i64 {
        self.direction.spec_major_pos(controlled.port.origin)
    }

    fn write_prop(
        &self,
        controlled: &mut Scroll<T, W>,
        ctx: &mut UpdateCtx,
        field_val: &i64,
        env: &Env,
    ) {
        controlled.scroll_to_direction(self.direction, *field_val);
        ctx.request_paint();
    }

    fn append_changes(
        &self,
        controlled: &Scroll<T, W>,
        field_val: &i64,
        change: &mut Option<()>,
        env: &Env,
    ) {
        if !controlled.offset_for_axis(self.direction).same(field_val) {
            *change = Some(());
        }
    }

    fn update_data_from_change(
        &self,
        controlled: &Scroll<T, W>,
        ctx: &EventCtx,
        field: &mut i64,
        change: (),
        env: &Env,
    ) {
        *field = controlled.offset_for_axis(self.direction);
    }
}

} // verus!
