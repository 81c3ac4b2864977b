//! The capability every node of the tree has, and the containment node that
//! wraps one child and keeps its per-node state.

use vstd::prelude::*;
use crate::context::{
    spec_size_warnings, Env, EventCtx, Frame, LayoutCtx, LayoutWarning, LifeCycleCtx, PaintCtx,
    PaintOp, Requests, UpdateCtx,
};
use crate::data::Data;
use crate::event::{Event, IdSource, LifeCycle, WidgetId, ROUTE_WIDGET_ADDED};
use crate::geometry::{BoxConstraints, Point, Rect, Size};

verus! {

/// A node of the tree, over data of type `T`.
///
/// Each phase has a relation between the node, its context and its data before
/// the call and after it. An implementation states the relation and proves
/// that its method keeps it; a container states its own relation over those
/// of its children.
pub trait Widget<T>: Sized {
    /// The node's invariant.
    spec fn wf(&self) -> bool;

    /// What `event` may do.
    spec fn event_post(
        pre: &Self,
        ctx0: &EventCtx,
        event: &Event,
        data0: &T,
        env: &Env,
        post: &Self,
        ctx1: &EventCtx,
        data1: &T,
    ) -> bool;

    /// What `lifecycle` may do.
    spec fn lifecycle_post(
        pre: &Self,
        ctx0: &LifeCycleCtx,
        event: &LifeCycle,
        data: &T,
        env: &Env,
        post: &Self,
        ctx1: &LifeCycleCtx,
    ) -> bool;

    /// What `update` may do.
    spec fn update_post(
        pre: &Self,
        ctx0: &UpdateCtx,
        old_data: &T,
        data: &T,
        env: &Env,
        post: &Self,
        ctx1: &UpdateCtx,
    ) -> bool;

    /// What `layout` may do and return.
    spec fn layout_post(
        pre: &Self,
        ctx0: &LayoutCtx,
        bc: &BoxConstraints,
        data: &T,
        env: &Env,
        post: &Self,
        ctx1: &LayoutCtx,
        size: Size,
    ) -> bool;

    /// What `paint` may do.
    spec fn paint_post(
        pre: &Self,
        ctx0: &PaintCtx,
        data: &T,
        env: &Env,
        post: &Self,
        ctx1: &PaintCtx,
    ) -> bool;

    /// Handles one input event. It may change the data.
    fn event(&mut self, ctx: &mut EventCtx, event: &Event, data: &mut T, env: &Env)
        requires
            old(self).wf(),
        ensures
            final(self).wf(),
            Self::event_post(
                old(self),
                old(ctx),
                event,
                old(data),
                env,
                final(self),
                final(ctx),
                final(data),
            ),
    ;

    /// Takes one structural notice.
    fn lifecycle(&mut self, ctx: &mut LifeCycleCtx, event: &LifeCycle, data: &T, env: &Env)
        requires
            old(self).wf(),
        ensures
            final(self).wf(),
            Self::lifecycle_post(old(self), old(ctx), event, data, env, final(self), final(ctx)),
    ;

    /// Compares old and new data and leaves requests; it does not draw.
    fn update(&mut self, ctx: &mut UpdateCtx, old_data: &T, data: &T, env: &Env)
        requires
            old(self).wf(),
        ensures
            final(self).wf(),
            Self::update_post(old(self), old(ctx), old_data, data, env, final(self), final(ctx)),
    ;

    /// Chooses a size within the constraints and places the children.
    fn layout(&mut self, ctx: &mut LayoutCtx, bc: &BoxConstraints, data: &T, env: &Env) -> (size:
        Size)
        requires
            old(self).wf(),
        ensures
            final(self).wf(),
            bc.wf() ==> bc.spec_contains(size),
            Self::layout_post(old(self), old(ctx), bc, data, env, final(self), final(ctx), size),
    ;

    /// Issues the draw instructions of this node.
    fn paint(&mut self, ctx: &mut PaintCtx, data: &T, env: &Env)
        requires
            old(self).wf(),
        ensures
            final(self).wf(),
            Self::paint_post(old(self), old(ctx), data, env, final(self), final(ctx)),
    ;
}

/// The state a containment node keeps about its child.
#[derive(Clone, Copy, Debug, PartialEq, Eq, Structural)]
pub struct PodState {
    pub id: WidgetId,
    /// The child has heard that it joined the tree.
    pub added: bool,
    pub is_hot: bool,
    pub is_active: bool,
    pub has_focus: bool,
    /// Where the parent placed the child, in the parent's frame.
    pub layout_rect: Rect,
    pub needs_layout: bool,
    pub needs_paint: bool,
    /// The next update pass runs although the data looks the same.
    pub needs_update: bool,
    pub wants_anim_frame: bool,
    pub children_changed: bool,
}

impl PodState {
    /// The state of a node that has just been made.
    pub open spec fn spec_initial(id: WidgetId) -> PodState {
        PodState {
            id,
            added: false,
            is_hot: false,
            is_active: false,
            has_focus: false,
            layout_rect: Rect { x0: 0, y0: 0, x1: 0, y1: 0 },
            needs_layout: true,
            needs_paint: true,
            needs_update: false,
            wants_anim_frame: false,
            children_changed: false,
        }
    }

    pub fn initial(id: WidgetId) -> (r: PodState)
        ensures
            r == Self::spec_initial(id),
    {
        PodState {
            id,
            added: false,
            is_hot: false,
            is_active: false,
            has_focus: false,
            layout_rect: Rect { x0: 0, y0: 0, x1: 0, y1: 0 },
            needs_layout: true,
            needs_paint: true,
            needs_update: false,
            wants_anim_frame: false,
            children_changed: false,
        }
    }

    /// What the child sees of itself.
    pub open spec fn spec_frame(self) -> Frame {
        Frame {
            widget_id: self.id,
            is_hot: self.is_hot,
            is_active: self.is_active,
            has_focus: self.has_focus,
            size: self.layout_rect.spec_size(),
        }
    }

    pub fn frame(self) -> (r: Frame)
        ensures
            r == self.spec_frame(),
    {
        Frame {
            widget_id: self.id,
            is_hot: self.is_hot,
            is_active: self.is_active,
            has_focus: self.has_focus,
            size: self.layout_rect.size(),
        }
    }

    /// This state with the child's requests noted as dirty bits. A request
    /// for layout is one for paint as well.
    pub open spec fn spec_absorb(self, made: Requests) -> PodState {
        PodState {
            needs_layout: self.needs_layout || made.layout,
            needs_paint: self.needs_paint || made.paint || made.layout,
            needs_update: self.needs_update || made.update,
            wants_anim_frame: self.wants_anim_frame || made.anim_frame,
            children_changed: self.children_changed || made.children_changed,
            ..self
        }
    }

    pub fn absorb(self, made: Requests) -> (r: PodState)
        ensures
            r == self.spec_absorb(made),
    {
        PodState {
            needs_layout: self.needs_layout || made.layout,
            needs_paint: self.needs_paint || made.paint || made.layout,
            needs_update: self.needs_update || made.update,
            wants_anim_frame: self.wants_anim_frame || made.anim_frame,
            children_changed: self.children_changed || made.children_changed,
            ..self
        }
    }

    /// Whether a node in this state hears the event. A node that has not
    /// joined the tree hears nothing, nor does any node once the event is
    /// handled. A pointer event is heard where it falls inside the layout
    /// rectangle, or the node is hot or holds the pointer.
    pub open spec fn spec_hears_event(self, handled: bool, event: &Event) -> bool {
        &&& self.added
        &&& !handled
        &&& match event.spec_pointer() {
            Some(m) => self.layout_rect.spec_contains(m.pos) || self.is_hot || self.is_active,
            None => true,
        }
    }

    /// This state once the event has been routed: a pointer event decides
    /// whether the node is hot.
    pub open spec fn spec_routed(self, handled: bool, event: &Event) -> PodState {
        if self.added && !handled {
            match event.spec_pointer() {
                Some(m) => PodState { is_hot: self.layout_rect.spec_contains(m.pos), ..self },
                None => self,
            }
        } else {
            self
        }
    }

    /// Whether a node in this state hears the notice. The first notice a node
    /// hears is that it joined the tree, and it hears that once. The notice
    /// that routes new nodes into the tree is heard by a node that has not
    /// joined, and by one below which the set of nodes changed.
    pub open spec fn spec_hears_lifecycle(self, event: &LifeCycle) -> bool {
        match event {
            LifeCycle::WidgetAdded => !self.added,
            LifeCycle::Internal(what) => if *what == ROUTE_WIDGET_ADDED {
                !self.added || self.children_changed
            } else {
                self.added
            },
            _ => self.added,
        }
    }

    /// The notice as the child hears it: a node that has not joined hears
    /// of its joining, whichever notice brought it.
    pub open spec fn spec_heard(self, event: &LifeCycle) -> LifeCycle {
        if self.added {
            *event
        } else {
            LifeCycle::WidgetAdded
        }
    }

    /// This state once the notice has been routed.
    pub open spec fn spec_noted(self, event: &LifeCycle) -> PodState {
        match event {
            LifeCycle::HotChanged(hot) => PodState { is_hot: *hot, ..self },
            LifeCycle::FocusChanged(focus) => PodState { has_focus: *focus, ..self },
            LifeCycle::Internal(what) => if *what == ROUTE_WIDGET_ADDED {
                PodState { children_changed: false, ..self }
            } else {
                self
            },
            _ => self,
        }
    }

    pub fn hears_lifecycle(self, event: &LifeCycle) -> (r: bool)
        ensures
            r == self.spec_hears_lifecycle(event),
    {
        match event {
            LifeCycle::WidgetAdded => !self.added,
            LifeCycle::Internal(what) => if *what == ROUTE_WIDGET_ADDED {
                !self.added || self.children_changed
            } else {
                self.added
            },
            _ => self.added,
        }
    }

    pub fn heard(self, event: &LifeCycle) -> (r: LifeCycle)
        ensures
            r == self.spec_heard(event),
    {
        if self.added {
            *event
        } else {
            LifeCycle::WidgetAdded
        }
    }

    pub fn noted(self, event: &LifeCycle) -> (r: PodState)
        ensures
            r == self.spec_noted(event),
    {
        match event {
            LifeCycle::HotChanged(hot) => PodState { is_hot: *hot, ..self },
            LifeCycle::FocusChanged(focus) => PodState { has_focus: *focus, ..self },
            LifeCycle::Internal(what) => if *what == ROUTE_WIDGET_ADDED {
                PodState { children_changed: false, ..self }
            } else {
                self
            },
            _ => self,
        }
    }
}

/// The containment node: one child, its identity and its per-node state.
pub struct Pod<T, W> {
    pub state: PodState,
    /// The data as the child last saw it in an update pass.
    pub old_data: Option<T>,
    pub inner: W,
}

impl<T, W> Pod<T, W> {
    /// A node around `inner` with the given identity.
    pub fn with_id(id: WidgetId, inner: W) -> (r: Self)
        ensures
            r.state == PodState::spec_initial(id),
            r.old_data is None,
            r.inner == inner,
    {
        Pod { state: PodState::initial(id), old_data: None, inner }
    }

    /// A node around `inner`, with the next identity of `ids`.
    pub fn new(ids: &mut IdSource, inner: W) -> (r: Self)
        ensures
            r.state == PodState::spec_initial(WidgetId(old(ids).next)),
            r.old_data is None,
            r.inner == inner,
            final(ids).next == IdSource::after_draw(old(ids).next),
    {
        let id = ids.next_widget_id();
        Pod { state: PodState::initial(id), old_data: None, inner }
    }

    pub fn id(&self) -> (r: WidgetId)
        ensures
            r == self.state.id,
    {
        self.state.id
    }

    pub fn widget(&self) -> (r: &W)
        ensures
            *r == self.inner,
    {
        &self.inner
    }

    pub fn widget_mut(&mut self) -> (r: &mut W)
        ensures
            *r == old(self).inner,
            *final(self) == (Pod { inner: *final(r), ..*old(self) }),
    {
        &mut self.inner
    }

    pub fn is_added(&self) -> (r: bool)
        ensures
            r == self.state.added,
    {
        self.state.added
    }

    pub fn is_hot(&self) -> (r: bool)
        ensures
            r == self.state.is_hot,
    {
        self.state.is_hot
    }

    pub fn is_active(&self) -> (r: bool)
        ensures
            r == self.state.is_active,
    {
        self.state.is_active
    }

    pub fn has_focus(&self) -> (r: bool)
        ensures
            r == self.state.has_focus,
    {
        self.state.has_focus
    }

    pub fn layout_rect(&self) -> (r: Rect)
        ensures
            r == self.state.layout_rect,
    {
        self.state.layout_rect
    }

    /// Places the child.
    pub fn set_layout_rect(&mut self, rect: Rect)
        ensures
            *final(self) == (Pod {
                state: PodState { layout_rect: rect, ..old(self).state },
                ..*old(self)
            }),
    {
        self.state.layout_rect = rect;
    }

    /// Moves the child, keeping its size.
    pub fn set_origin(&mut self, origin: Point)
        ensures
            *final(self) == (Pod {
                state: PodState {
                    layout_rect: old(self).state.layout_rect.spec_with_origin(origin),
                    ..old(self).state
                },
                ..*old(self)
            }),
    {
        self.state.layout_rect = self.state.layout_rect.with_origin(origin);
    }

    pub fn old_data(&self) -> (r: &Option<T>)
        ensures
            *r == self.old_data,
    {
        &self.old_data
    }
}

impl<T: Data, W: Widget<T>> Pod<T, W> {
    pub open spec fn wf(&self) -> bool {
        self.inner.wf()
    }

    /// The context the child handles an event in.
    pub open spec fn spec_child_event_ctx(pre: &Self, ctx0: &EventCtx, event: &Event) -> EventCtx {
        EventCtx {
            frame: pre.state.spec_routed(ctx0.is_handled, event).spec_frame(),
            requests: Requests::spec_none(),
            ..*ctx0
        }
    }

    /// What `event` does. Where the node does not hear the event, child, data
    /// and context stay as they are. Where it does, the child handles the
    /// event, moved into its own frame, in a context of its own; its requests
    /// become dirty bits of the node and are handed up.
    pub open spec fn event_post(
        pre: &Self,
        ctx0: &EventCtx,
        event: &Event,
        data0: &T,
        env: &Env,
        post: &Self,
        ctx1: &EventCtx,
        data1: &T,
    ) -> bool {
        let routed = pre.state.spec_routed(ctx0.is_handled, event);
        if !pre.state.spec_hears_event(ctx0.is_handled, event) {
            &&& *post == (Pod { state: routed, ..*pre })
            &&& *ctx1 == *ctx0
            &&& *data1 == *data0
        } else {
            exists|mid: EventCtx|
                {
                    &&& #[trigger] W::event_post(
                        &pre.inner,
                        &Self::spec_child_event_ctx(pre, ctx0, event),
                        &event.spec_relative_to(pre.state.layout_rect.spec_origin()),
                        data0,
                        env,
                        &post.inner,
                        &mid,
                        data1,
                    )
                    &&& post.state == (PodState {
                        is_active: mid.frame.is_active,
                        ..routed
                    }).spec_absorb(mid.requests)
                    &&& post.old_data == pre.old_data
                    &&& *ctx1 == (EventCtx {
                        frame: ctx0.frame,
                        requests: ctx0.requests.spec_merge(mid.requests),
                        ..mid
                    })
                }
        }
    }

    /// Hands an event to the child, if the child is to hear it.
    pub fn event(&mut self, ctx: &mut EventCtx, event: &Event, data: &mut T, env: &Env)
        requires
            old(self).wf(),
        ensures
            final(self).wf(),
            final(self).state.id == old(self).state.id,
            Self::event_post(
                old(self),
                old(ctx),
                event,
                old(data),
                env,
                final(self),
                final(ctx),
                final(data),
            ),
    {
        if !self.state.added || ctx.is_handled {
            return ;
        }
        let rect = self.state.layout_rect;
        let hears = match event.pointer() {
            Some(m) => {
                let inside = rect.contains(m.pos);
                let hears = inside || self.state.is_hot || self.state.is_active;
                self.state.is_hot = inside;
                hears
            },
            None => true,
        };
        if !hears {
            return ;
        }
        let local = event.relative_to(rect.origin());
        let parent_frame = ctx.frame;
        let parent_requests = ctx.requests;
        ctx.frame = self.state.frame();
        ctx.requests = Requests::none();
        match &local {
            Some(moved) => self.inner.event(ctx, moved, data, env),
            None => self.inner.event(ctx, event, data, env),
        }
        let made = ctx.requests;
        self.state.is_active = ctx.frame.is_active;
        self.state = self.state.absorb(made);
        let ghost mid = *ctx;
        ctx.frame = parent_frame;
        ctx.requests = parent_requests.merge(made);
        proof {
            assert(W::event_post(
                &old(self).inner,
                &Self::spec_child_event_ctx(old(self), old(ctx), event),
                &event.spec_relative_to(old(self).state.layout_rect.spec_origin()),
                old(data),
                env,
                &self.inner,
                &mid,
                data,
            ));
        }
    }

    /// The context the child takes a notice in.
    pub open spec fn spec_child_lifecycle_ctx(
        pre: &Self,
        ctx0: &LifeCycleCtx,
        event: &LifeCycle,
    ) -> LifeCycleCtx {
        LifeCycleCtx {
            frame: pre.state.spec_noted(event).spec_frame(),
            requests: Requests::spec_none(),
            ..*ctx0
        }
    }

    /// What `lifecycle` does. The first notice a node hears is that it joined
    /// the tree; it hears it once, and from then on holds a snapshot of the
    /// data. Any other notice passes a node that has not joined by, but for
    /// the notice that routes new nodes into the tree, which such a node
    /// hears as its joining.
    pub open spec fn lifecycle_post(
        pre: &Self,
        ctx0: &LifeCycleCtx,
        event: &LifeCycle,
        data: &T,
        env: &Env,
        post: &Self,
        ctx1: &LifeCycleCtx,
    ) -> bool {
        if !pre.state.spec_hears_lifecycle(event) {
            *post == *pre && *ctx1 == *ctx0
        } else {
            exists|mid: LifeCycleCtx|
                {
                    &&& #[trigger] W::lifecycle_post(
                        &pre.inner,
                        &Self::spec_child_lifecycle_ctx(pre, ctx0, event),
                        &pre.state.spec_heard(event),
                        data,
                        env,
                        &post.inner,
                        &mid,
                    )
                    &&& post.state == (PodState {
                        added: true,
                        ..pre.state.spec_noted(event).spec_absorb(mid.requests)
                    })
                    &&& post.old_data == (if pre.state.added {
                        pre.old_data
                    } else {
                        Some(*data)
                    })
                    &&& *ctx1 == (LifeCycleCtx {
                        frame: ctx0.frame,
                        requests: ctx0.requests.spec_merge(mid.requests),
                        ..mid
                    })
                }
        }
    }

    /// Hands a structural notice to the child, if the child is to hear it.
    pub fn lifecycle(&mut self, ctx: &mut LifeCycleCtx, event: &LifeCycle, data: &T, env: &Env)
        requires
            old(self).wf(),
        ensures
            final(self).wf(),
            final(self).state.id == old(self).state.id,
            Self::lifecycle_post(old(self), old(ctx), event, data, env, final(self), final(ctx)),
    {
        if !self.state.hears_lifecycle(event) {
            return ;
        }
        let joining = !self.state.added;
        let heard = self.state.heard(event);
        self.state = self.state.noted(event);
        let parent_frame = ctx.frame;
        let parent_requests = ctx.requests;
        ctx.frame = self.state.frame();
        ctx.requests = Requests::none();
        self.inner.lifecycle(ctx, &heard, data, env);
        let made = ctx.requests;
        self.state = self.state.absorb(made);
        let ghost mid = *ctx;
        ctx.frame = parent_frame;
        ctx.requests = parent_requests.merge(made);
        if joining {
            self.state.added = true;
            self.old_data = Some(data.duplicate());
        }
        proof {
            let noted = old(self).state.spec_noted(event);
            assert(self.state == (PodState { added: true, ..noted.spec_absorb(mid.requests) }));
            assert(*ctx == (LifeCycleCtx {
                frame: old(ctx).frame,
                requests: old(ctx).requests.spec_merge(mid.requests),
                ..mid
            }));
            assert(W::lifecycle_post(
                &old(self).inner,
                &Self::spec_child_lifecycle_ctx(old(self), old(ctx), event),
                &old(self).state.spec_heard(event),
                data,
                env,
                &self.inner,
                &mid,
            ));
        }
    }

    /// Whether an update pass reaches the child: the node has joined, and the
    /// data differs from the snapshot or an update was asked for.
    pub open spec fn spec_runs_update(pre: &Self, data: &T) -> bool {
        &&& pre.state.added
        &&& match pre.old_data {
            Some(old) => !old.same_spec(data) || pre.state.needs_update,
            None => true,
        }
    }

    /// The data the child compares the new data with.
    pub open spec fn spec_update_from(pre: &Self, data: &T) -> T {
        match pre.old_data {
            Some(old) => old,
            None => *data,
        }
    }

    /// The context the child updates in.
    pub open spec fn spec_child_update_ctx(pre: &Self, ctx0: &UpdateCtx) -> UpdateCtx {
        UpdateCtx { frame: pre.state.spec_frame(), requests: Requests::spec_none(), ..*ctx0 }
    }

    /// What `update` does. Where the pass reaches the child, the child
    /// compares the snapshot with the new data, and the new data becomes the
    /// snapshot. Otherwise nothing changes.
    pub open spec fn update_post(
        pre: &Self,
        ctx0: &UpdateCtx,
        data: &T,
        env: &Env,
        post: &Self,
        ctx1: &UpdateCtx,
    ) -> bool {
        if !Self::spec_runs_update(pre, data) {
            *post == *pre && *ctx1 == *ctx0
        } else {
            exists|mid: UpdateCtx|
                {
                    &&& #[trigger] W::update_post(
                        &pre.inner,
                        &Self::spec_child_update_ctx(pre, ctx0),
                        &Self::spec_update_from(pre, data),
                        data,
                        env,
                        &post.inner,
                        &mid,
                    )
                    &&& post.state == (PodState {
                        needs_update: false,
                        ..pre.state
                    }).spec_absorb(mid.requests)
                    &&& post.old_data == Some(*data)
                    &&& *ctx1 == (UpdateCtx {
                        frame: ctx0.frame,
                        requests: ctx0.requests.spec_merge(mid.requests),
                        ..mid
                    })
                }
        }
    }

    /// Runs an update pass over the child, if the data changed.
    pub fn update(&mut self, ctx: &mut UpdateCtx, data: &T, env: &Env)
        requires
            old(self).wf(),
        ensures
            final(self).wf(),
            final(self).state.id == old(self).state.id,
            Self::update_post(old(self), old(ctx), data, env, final(self), final(ctx)),
    {
        if !self.state.added {
            return ;
        }
        let runs = match &self.old_data {
            Some(old) => !old.same(data) || self.state.needs_update,
            None => true,
        };
        if !runs {
            return ;
        }
        let parent_frame = ctx.frame;
        let parent_requests = ctx.requests;
        ctx.frame = self.state.frame();
        ctx.requests = Requests::none();
        self.state.needs_update = false;
        match &self.old_data {
            Some(old) => self.inner.update(ctx, old, data, env),
            None => self.inner.update(ctx, data, data, env),
        }
        let made = ctx.requests;
        self.state = self.state.absorb(made);
        self.old_data = Some(data.duplicate());
        let ghost mid = *ctx;
        ctx.frame = parent_frame;
        ctx.requests = parent_requests.merge(made);
        proof {
            assert(W::update_post(
                &old(self).inner,
                &Self::spec_child_update_ctx(old(self), old(ctx)),
                &Self::spec_update_from(old(self), data),
                data,
                env,
                &self.inner,
                &mid,
            ));
        }
    }

    /// The context the child lays itself out in.
    pub open spec fn spec_child_layout_ctx(pre: &Self, ctx0: &LayoutCtx) -> LayoutCtx {
        LayoutCtx { frame: pre.state.spec_frame(), ..*ctx0 }
    }

    /// The warnings that a child's answer `asked` adds: one for each side
    /// that is unbounded, and one where the answer lies outside the
    /// constraints.
    pub open spec fn spec_layout_warnings(
        id: WidgetId,
        bc: &BoxConstraints,
        asked: Size,
    ) -> Seq<LayoutWarning> {
        let w = spec_size_warnings(id, asked);
        if bc.spec_contains(asked) {
            w
        } else {
            w.push(LayoutWarning::Unconstrained(id))
        }
    }

    /// What `layout` does. A node that has not joined takes the least size
    /// and nothing changes. Otherwise the child answers with a size; an
    /// unbounded side, and an answer outside the constraints, are recorded
    /// as warnings; the size, held to the constraints, becomes the size of
    /// the layout rectangle.
    pub open spec fn layout_post(
        pre: &Self,
        ctx0: &LayoutCtx,
        bc: &BoxConstraints,
        data: &T,
        env: &Env,
        post: &Self,
        ctx1: &LayoutCtx,
        size: Size,
    ) -> bool {
        if !pre.state.added {
            &&& *post == *pre
            &&& *ctx1 == *ctx0
            &&& size == bc.spec_constrain(Size { width: 0, height: 0 })
        } else {
            exists|mid: LayoutCtx, asked: Size|
                {
                    &&& #[trigger] W::layout_post(
                        &pre.inner,
                        &Self::spec_child_layout_ctx(pre, ctx0),
                        bc,
                        data,
                        env,
                        &post.inner,
                        &mid,
                        asked,
                    )
                    &&& size == bc.spec_constrain(asked)
                    &&& post.state == (PodState {
                        layout_rect: pre.state.layout_rect.spec_with_size(size),
                        needs_layout: false,
                        ..pre.state
                    })
                    &&& post.old_data == pre.old_data
                    &&& ctx1.frame == ctx0.frame
                    &&& ctx1.commands == mid.commands
                    &&& ctx1.warnings@ == mid.warnings@ + Self::spec_layout_warnings(
                        pre.state.id,
                        bc,
                        asked,
                    )
                }
        }
    }

    /// Lays the child out and records its size.
    pub fn layout(&mut self, ctx: &mut LayoutCtx, bc: &BoxConstraints, data: &T, env: &Env) -> (size:
        Size)
        requires
            old(self).wf(),
        ensures
            final(self).wf(),
            final(self).state.id == old(self).state.id,
            bc.wf() ==> bc.spec_contains(size),
            Self::layout_post(old(self), old(ctx), bc, data, env, final(self), final(ctx), size),
    {
        if !self.state.added {
            return bc.constrain(Size::zero());
        }
        let parent_frame = ctx.frame;
        ctx.frame = self.state.frame();
        let asked = self.inner.layout(ctx, bc, data, env);
        let ghost mid = *ctx;
        ctx.warn_of_size(self.state.id, asked);
        if !bc.contains(asked) {
            ctx.warn(LayoutWarning::Unconstrained(self.state.id));
        }
        let size = bc.constrain(asked);
        self.state.layout_rect = self.state.layout_rect.with_size(size);
        self.state.needs_layout = false;
        ctx.frame = parent_frame;
        proof {
            assert(W::layout_post(
                &old(self).inner,
                &Self::spec_child_layout_ctx(old(self), old(ctx)),
                bc,
                data,
                env,
                &self.inner,
                &mid,
                asked,
            ));
            assert(ctx.warnings@ =~= mid.warnings@ + Self::spec_layout_warnings(
                old(self).state.id,
                bc,
                asked,
            ));
        }
        size
    }

    /// What `paint_raw` does: the child paints in the frame it is given,
    /// and the node is clean.
    pub open spec fn paint_raw_post(
        pre: &Self,
        ctx0: &PaintCtx,
        data: &T,
        env: &Env,
        post: &Self,
        ctx1: &PaintCtx,
    ) -> bool {
        if !pre.state.added {
            *post == *pre && *ctx1 == *ctx0
        } else {
            exists|mid: PaintCtx|
                {
                    &&& #[trigger] W::paint_post(
                        &pre.inner,
                        &(PaintCtx { frame: pre.state.spec_frame(), ..*ctx0 }),
                        data,
                        env,
                        &post.inner,
                        &mid,
                    )
                    &&& post.state == (PodState { needs_paint: false, ..pre.state })
                    &&& post.old_data == pre.old_data
                    &&& *ctx1 == (PaintCtx { frame: ctx0.frame, ..mid })
                }
        }
    }

    /// Lets the child paint without moving or clipping the surface: for a
    /// parent that has set up the surface itself.
    pub fn paint_raw(&mut self, ctx: &mut PaintCtx, data: &T, env: &Env)
        requires
            old(self).wf(),
        ensures
            final(self).wf(),
            final(self).state.id == old(self).state.id,
            Self::paint_raw_post(old(self), old(ctx), data, env, final(self), final(ctx)),
    {
        if !self.state.added {
            return ;
        }
        let parent_frame = ctx.frame;
        ctx.frame = self.state.frame();
        self.inner.paint(ctx, data, env);
        let ghost mid = *ctx;
        self.state.needs_paint = false;
        ctx.frame = parent_frame;
        proof {
            assert(W::paint_post(
                &old(self).inner,
                &(PaintCtx { frame: old(self).state.spec_frame(), ..*old(ctx) }),
                data,
                env,
                &self.inner,
                &mid,
            ));
        }
    }

    /// The instructions that set the surface up for the child: the frame is
    /// moved to the child's origin and clipped to its bounds.
    pub open spec fn spec_paint_preamble(state: PodState) -> Seq<PaintOp> {
        seq![
            PaintOp::Save,
            PaintOp::Translate(state.layout_rect.spec_origin().spec_to_vec2()),
            PaintOp::Clip(state.layout_rect.spec_size().spec_to_rect()),
        ]
    }

    /// What `paint` does: between saving and restoring the surface, the
    /// child paints in its own frame, clipped to its bounds.
    pub open spec fn paint_post(
        pre: &Self,
        ctx0: &PaintCtx,
        data: &T,
        env: &Env,
        post: &Self,
        ctx1: &PaintCtx,
    ) -> bool {
        if !pre.state.added {
            *post == *pre && *ctx1 == *ctx0
        } else {
            exists|inside: PaintCtx, mid: PaintCtx|
                {
                    &&& inside.frame == ctx0.frame
                    &&& inside.ops@ == ctx0.ops@ + Self::spec_paint_preamble(pre.state)
                    &&& #[trigger] Self::paint_raw_post(pre, &inside, data, env, post, &mid)
                    &&& ctx1.frame == ctx0.frame
                    &&& ctx1.ops@ == mid.ops@.push(PaintOp::Restore)
                }
        }
    }

    /// Lets the child paint in its own frame, clipped to its bounds.
    pub fn paint(&mut self, ctx: &mut PaintCtx, data: &T, env: &Env)
        requires
            old(self).wf(),
        ensures
            final(self).wf(),
            final(self).state.id == old(self).state.id,
            Self::paint_post(old(self), old(ctx), data, env, final(self), final(ctx)),
    {
        if !self.state.added {
            return ;
        }
        let rect = self.state.layout_rect;
        ctx.save();
        ctx.translate(rect.origin().to_vec2());
        ctx.clip(rect.size().to_rect());
        let ghost inside = *ctx;
        self.paint_raw(ctx, data, env);
        let ghost mid = *ctx;
        ctx.restore();
        proof {
            assert(inside.ops@ =~= old(ctx).ops@ + Self::spec_paint_preamble(old(self).state));
            assert(Self::paint_raw_post(old(self), &inside, data, env, self, &mid));
        }
    }
}

} // verus!
