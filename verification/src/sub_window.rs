//! Sub-windows: a window of its own for a part of the tree, whose data can
//! be kept in step with the data of the widget that asked for it.

use vstd::prelude::*;
use crate::app::{PendingWindow, WindowConfig, WindowDesc};
use crate::context::{
    Env, EventCtx, LayoutCtx, LifeCycleCtx, PaintCtx, Requests, UpdateCtx,
};
use crate::data::Data;
use crate::event::{
    Command, Event, IdSource, LifeCycle, Payload, Target, WidgetId, WindowId,
    SUB_WINDOW_HOST_TO_PARENT, SUB_WINDOW_PARENT_TO_HOST,
};
use crate::geometry::{BoxConstraints, Point, Rect, Size, Vec2};
use crate::slots::spec_laid_rect;
use crate::widget::{Pod, PodState, Widget};

verus! {

/// Data that can travel in a command.
pub trait PayloadData: Data {
    /// The payload that carries this value.
    spec fn spec_payload(&self) -> Payload;

    /// The value that a payload carries, if it carries one of this type.
    spec fn spec_from_payload(payload: &Payload) -> Option<Self>;

    /// What was packed is what is unpacked.
    proof fn lemma_round_trip(&self)
        ensures
            Self::spec_from_payload(&self.spec_payload()) == Some(*self),
    ;

    fn to_payload(&self) -> (r: Payload)
        ensures
            r == self.spec_payload(),
    ;

    fn from_payload(payload: &Payload) -> (r: Option<Self>)
        ensures
            r == Self::spec_from_payload(payload),
    ;
}

impl PayloadData for i64 {
    open spec fn spec_payload(&self) -> Payload {
        Payload::Number(*self)
    }

    open spec fn spec_from_payload(payload: &Payload) -> Option<i64> {
        match payload {
            Payload::Number(n) => Some(*n),
            _ => None,
        }
    }

    proof fn lemma_round_trip(&self) {
    }

    fn to_payload(&self) -> (r: Payload) {
        Payload::Number(*self)
    }

    fn from_payload(payload: &Payload) -> (r: Option<i64>) {
        match payload {
            Payload::Number(n) => Some(*n),
            _ => None,
        }
    }
}

impl PayloadData for bool {
    open spec fn spec_payload(&self) -> Payload {
        Payload::Flag(*self)
    }

    open spec fn spec_from_payload(payload: &Payload) -> Option<bool> {
        match payload {
            Payload::Flag(b) => Some(*b),
            _ => None,
        }
    }

    proof fn lemma_round_trip(&self) {
    }

    fn to_payload(&self) -> (r: Payload) {
        Payload::Flag(*self)
    }

    fn from_payload(payload: &Payload) -> (r: Option<bool>) {
        match payload {
            Payload::Flag(b) => Some(*b),
            _ => None,
        }
    }
}

impl PayloadData for Vec2 {
    open spec fn spec_payload(&self) -> Payload {
        Payload::Offset(*self)
    }

    open spec fn spec_from_payload(payload: &Payload) -> Option<Vec2> {
        match payload {
            Payload::Offset(v) => Some(*v),
            _ => None,
        }
    }

    proof fn lemma_round_trip(&self) {
    }

    fn to_payload(&self) -> (r: Payload) {
        Payload::Offset(*self)
    }

    fn from_payload(payload: &Payload) -> (r: Option<Vec2>) {
        match payload {
            Payload::Offset(v) => Some(*v),
            _ => None,
        }
    }
}

impl PayloadData for String {
    open spec fn spec_payload(&self) -> Payload {
        Payload::Text(*self)
    }

    open spec fn spec_from_payload(payload: &Payload) -> Option<String> {
        match payload {
            Payload::Text(s) => Some(*s),
            _ => None,
        }
    }

    proof fn lemma_round_trip(&self) {
    }

    fn to_payload(&self) -> (r: Payload) {
        Payload::Text(self.clone())
    }

    fn from_payload(payload: &Payload) -> (r: Option<String>) {
        match payload {
            Payload::Text(s) => Some(s.clone()),
            _ => None,
        }
    }
}

/// What it takes to open a sub-window: the root of its tree, its settings
/// and its identity. Nothing in it names a type of data: both ends of the
/// request need not know each other's.
pub struct SubWindowRequirement<W> {
    /// The node that takes the data of the parent, where the sub-window is
    /// kept in step with it.
    pub host_id: Option<WidgetId>,
    pub sub_window_root: W,
    pub window_config: WindowConfig,
    pub window_id: WindowId,
}

impl<W> SubWindowRequirement<W> {
    pub fn new(
        host_id: Option<WidgetId>,
        sub_window_root: W,
        window_config: WindowConfig,
        window_id: WindowId,
    ) -> (r: Self)
        ensures
            r.host_id == host_id,
            r.sub_window_root == sub_window_root,
            r.window_config == window_config,
            r.window_id == window_id,
    {
        SubWindowRequirement { host_id, sub_window_root, window_config, window_id }
    }

    /// The description of the window that the host is to open.
    pub fn make_sub_window(self) -> (r: WindowDesc<W>)
        ensures
            r.id == self.window_id,
            r.config == self.window_config,
            r.pending.root == self.sub_window_root,
            r.pending.title matches crate::app::LabelText::Localized(key) && key@
                == crate::app::spec_default_title_key(),
            r.pending.menu == Some(crate::app::MenuDesc { id: 0 }),
    {
        let pending = PendingWindow::new_from_boxed(Box::new(self.sub_window_root));
        WindowDesc { pending, config: self.window_config, id: self.window_id }
    }
}

/// The root of a sub-window: it holds the data of the sub-window and runs a
/// child over it. Its own data is empty.
///
/// Where the sub-window is kept in step with its parent, a command from the
/// parent replaces the data, and a change of the data by the child is sent
/// to the parent.
pub struct SubWindowHost<U, W> {
    pub id: WidgetId,
    pub parent_id: WidgetId,
    pub sync: bool,
    pub data: U,
    pub child: Pod<U, W>,
}

/// The command by which a sub-window tells its parent of new data.
pub open spec fn spec_to_parent<U: PayloadData>(data: &U, parent: WidgetId) -> Command {
    Command {
        selector: SUB_WINDOW_HOST_TO_PARENT,
        target: Target::Widget(parent),
        payload: data.spec_payload(),
    }
}

/// The context in which the child has an update pass in the middle of an
/// event phase.
pub open spec fn spec_update_within(ctx: &EventCtx) -> UpdateCtx {
    UpdateCtx {
        frame: ctx.frame,
        requests: Requests::spec_none(),
        commands: ctx.commands,
        ids: ctx.ids,
    }
}

/// The context of the event phase once the child has had its update pass.
pub open spec fn spec_updated_within(ctx: &EventCtx, updated: &UpdateCtx) -> EventCtx {
    EventCtx {
        frame: ctx.frame,
        is_handled: ctx.is_handled,
        requests: ctx.requests.spec_merge(updated.requests),
        commands: updated.commands,
        ids: updated.ids,
    }
}

impl<U: PayloadData, W: Widget<U>> SubWindowHost<U, W> {
    pub fn new(
        ids: &mut IdSource,
        id: WidgetId,
        port_id: WidgetId,
        sync: bool,
        data: U,
        widget: W,
    ) -> (r: Self)
        requires
            widget.wf(),
        ensures
            r.spec_wf(),
            r.id == id,
            r.parent_id == port_id,
            r.sync == sync,
            r.data == data,
            r.child.inner == widget,
            r.child.old_data is None,
            r.child.state == PodState::spec_initial(WidgetId(old(ids).next)),
            final(ids).next == IdSource::after_draw(old(ids).next),
    {
        SubWindowHost { id, parent_id: port_id, sync, data, child: Pod::new(ids, widget) }
    }

    pub open spec fn spec_wf(&self) -> bool {
        self.child.wf()
    }

    /// The identity of the host.
    pub fn id(&self) -> (r: Option<WidgetId>)
        ensures
            r == Some(self.id),
    {
        Some(self.id)
    }

    /// What it takes to open a sub-window around `widget` over `data`. The
    /// host and the window get the next two identities of `ids`. The
    /// requirement names the host only where the sub-window is kept in step
    /// with its parent.
    pub fn make_requirement(
        ids: &mut IdSource,
        parent_id: WidgetId,
        window_config: WindowConfig,
        sync: bool,
        widget: W,
        data: U,
    ) -> (r: SubWindowRequirement<SubWindowHost<U, W>>)
        requires
            widget.wf(),
        ensures
            r.sub_window_root.spec_wf(),
            r.sub_window_root.id == WidgetId(old(ids).next),
            r.sub_window_root.parent_id == parent_id,
            r.sub_window_root.sync == sync,
            r.sub_window_root.data == data,
            r.sub_window_root.child.inner == widget,
            r.host_id == if sync {
                Some(WidgetId(old(ids).next))
            } else {
                None
            },
            r.window_config == window_config,
            old(ids).next <= r.window_id.0 <= final(ids).next,
            old(ids).next <= final(ids).next,
    {
        let host_id = ids.next_widget_id();
        let sub_window_host = SubWindowHost::new(ids, host_id, parent_id, sync, data, widget);
        SubWindowRequirement {
            host_id: if sync {
                Some(host_id)
            } else {
                None
            },
            sub_window_root: sub_window_host,
            window_config,
            window_id: ids.next_window_id(),
        }
    }

    /// Whether the event is the command by which the parent sends new data
    /// to this host, of a sub-window that is kept in step.
    pub open spec fn spec_takes_update(&self, event: &Event) -> bool {
        self.sync && (*event matches Event::Command(c) && c.selector == SUB_WINDOW_PARENT_TO_HOST
            && c.target == Target::Widget(self.id))
    }

    fn update_within(&mut self, ctx: &mut EventCtx, env: &Env)
        requires
            old(self).spec_wf(),
        ensures
            final(self).spec_wf(),
            *final(self) == (SubWindowHost { child: final(self).child, ..*old(self) }),
            exists|updated: UpdateCtx| #[trigger]
                Self::updated_from(old(self), old(ctx), env, &updated, final(self), final(ctx)),
    {
        let mut update_ctx = UpdateCtx::new(ctx.frame, IdSource::new());
        std::mem::swap(&mut update_ctx.ids, &mut ctx.ids);
        std::mem::swap(&mut update_ctx.commands, &mut ctx.commands);
        self.child.update(&mut update_ctx, &self.data, env);
        let ghost updated = update_ctx;
        std::mem::swap(&mut update_ctx.ids, &mut ctx.ids);
        std::mem::swap(&mut update_ctx.commands, &mut ctx.commands);
        ctx.requests = ctx.requests.merge(update_ctx.requests);
        proof {
            assert(Self::updated_from(old(self), old(ctx), env, &updated, self, ctx));
        }
    }

    /// One update pass of the child inside an event phase, told with the
    /// context `updated` that the pass left.
    pub open spec fn updated_from(
        pre: &Self,
        ctx0: &EventCtx,
        env: &Env,
        updated: &UpdateCtx,
        post: &Self,
        ctx1: &EventCtx,
    ) -> bool {
        &&& Pod::update_post(
            &pre.child,
            &spec_update_within(ctx0),
            &pre.data,
            env,
            &post.child,
            updated,
        )
        &&& *ctx1 == spec_updated_within(ctx0, updated)
    }

    /// One event phase that is not a command from the parent, told with the
    /// host `seen` and the context `mid` as the child's turn left them, and
    /// the context `updated` that the update pass left.
    pub open spec fn event_from(
        pre: &Self,
        ctx0: &EventCtx,
        event: &Event,
        env: &Env,
        seen: &Self,
        mid: &EventCtx,
        updated: &UpdateCtx,
        post: &Self,
        ctx1: &EventCtx,
    ) -> bool {
        let after = spec_updated_within(mid, updated);
        &&& *seen == (SubWindowHost { child: seen.child, data: seen.data, ..*pre })
        &&& Pod::event_post(&pre.child, ctx0, event, &pre.data, env, &seen.child, mid, &seen.data)
        &&& Self::updated_from(seen, mid, env, updated, post, &after)
        &&& *post == (SubWindowHost { child: post.child, ..*seen })
        &&& if pre.sync && !pre.data.same_spec(&post.data) {
            &&& ctx1.commands@ == after.commands@.push(spec_to_parent(&post.data, pre.parent_id))
            &&& ctx1.frame == after.frame
            &&& ctx1.is_handled == after.is_handled
            &&& ctx1.requests == after.requests
            &&& ctx1.ids == after.ids
        } else {
            *ctx1 == after
        }
    }

    /// One event phase that is a command from the parent, told with the
    /// context `updated` that the update pass left.
    pub open spec fn replaced_from(
        pre: &Self,
        ctx0: &EventCtx,
        event: &Event,
        env: &Env,
        updated: &UpdateCtx,
        post: &Self,
        ctx1: &EventCtx,
    ) -> bool {
        match U::spec_from_payload(&event->Command_0.payload) {
            Some(update) => {
                let taken = SubWindowHost { data: update, ..*pre };
                &&& *post == (SubWindowHost { child: post.child, ..taken })
                &&& Pod::update_post(
                    &pre.child,
                    &spec_update_within(ctx0),
                    &update,
                    env,
                    &post.child,
                    updated,
                )
                &&& *ctx1 == (EventCtx { is_handled: true, ..spec_updated_within(ctx0, updated) })
            },
            None => *post == *pre && *ctx1 == (EventCtx { is_handled: true, ..*ctx0 }),
        }
    }
}

impl<U: PayloadData, W: Widget<U>> Widget<()> for SubWindowHost<U, W> {
    open spec fn wf(&self) -> bool {
        self.spec_wf()
    }

    /// A command from the parent replaces the data, and the child has an
    /// update pass; a command whose payload is not data of the right type
    /// is marked as handled and changes nothing. On any other event the
    /// child has its turn and then an update pass, and where it changed
    /// the data of a sub-window that is kept in step, the parent is told.
    open spec fn event_post(
        pre: &Self,
        ctx0: &EventCtx,
        event: &Event,
        data0: &(),
        env: &Env,
        post: &Self,
        ctx1: &EventCtx,
        data1: &(),
    ) -> bool {
        if pre.spec_takes_update(event) {
            exists|updated: UpdateCtx| #[trigger]
                Self::replaced_from(pre, ctx0, event, env, &updated, post, ctx1)
        } else {
            exists|seen: Self, mid: EventCtx, updated: UpdateCtx| #[trigger]
                Self::event_from(pre, ctx0, event, env, &seen, &mid, &updated, post, ctx1)
        }
    }

    open spec fn lifecycle_post(
        pre: &Self,
        ctx0: &LifeCycleCtx,
        event: &LifeCycle,
        data: &(),
        env: &Env,
        post: &Self,
        ctx1: &LifeCycleCtx,
    ) -> bool {
        &&& *post == (SubWindowHost { child: post.child, ..*pre })
        &&& Pod::lifecycle_post(&pre.child, ctx0, event, &pre.data, env, &post.child, ctx1)
    }

    /// The data of the host is empty and never changes.
    open spec fn update_post(
        pre: &Self,
        ctx0: &UpdateCtx,
        old_data: &(),
        data: &(),
        env: &Env,
        post: &Self,
        ctx1: &UpdateCtx,
    ) -> bool {
        *post == *pre && *ctx1 == *ctx0
    }

    open spec fn layout_post(
        pre: &Self,
        ctx0: &LayoutCtx,
        bc: &BoxConstraints,
        data: &(),
        env: &Env,
        post: &Self,
        ctx1: &LayoutCtx,
        size: Size,
    ) -> bool {
        &&& *post == (SubWindowHost { child: post.child, ..*pre })
        &&& Pod::layout_post(
            &pre.child,
            ctx0,
            bc,
            &pre.data,
            env,
            &(Pod {
                state: PodState {
                    layout_rect: spec_laid_rect(&pre.child, size),
                    ..post.child.state
                },
                ..post.child
            }),
            ctx1,
            size,
        )
        &&& post.child.state.layout_rect == Rect::spec_from_origin_size(Point { x: 0, y: 0 }, size)
    }

    open spec fn paint_post(
        pre: &Self,
        ctx0: &PaintCtx,
        data: &(),
        env: &Env,
        post: &Self,
        ctx1: &PaintCtx,
    ) -> bool {
        &&& *post == (SubWindowHost { child: post.child, ..*pre })
        &&& Pod::paint_raw_post(&pre.child, ctx0, &pre.data, env, &post.child, ctx1)
    }

    fn event(&mut self, ctx: &mut EventCtx, event: &Event, data: &mut (), env: &Env) {
        let update = match event {
            Event::Command(cmd) => {
                let mine = match cmd.target {
                    Target::Widget(id) => id.0 == self.id.0,
                    Target::Global => false,
                };
                if self.sync && cmd.is(SUB_WINDOW_PARENT_TO_HOST) && mine {
                    Some(U::from_payload(&cmd.payload))
                } else {
                    None
                }
            },
            _ => None,
        };
        match update {
            Some(carried) => {
                match carried {
                    Some(update) => {
                        self.data = update;
                        let ghost taken = *self;
                        self.update_within(ctx, env);
                        let ghost after = *ctx;
                        ctx.set_handled();
                        proof {
                            let updated = choose|updated: UpdateCtx|
                                Self::updated_from(&taken, old(ctx), env, &updated, self, &after);
                            assert(Self::replaced_from(
                                old(self),
                                old(ctx),
                                event,
                                env,
                                &updated,
                                self,
                                ctx,
                            ));
                        }
                    },
                    None => {
                        ctx.set_handled();
                        proof {
                            let updated = spec_update_within(old(ctx));
                            assert(Self::replaced_from(
                                old(self),
                                old(ctx),
                                event,
                                env,
                                &updated,
                                self,
                                ctx,
                            ));
                        }
                    },
                }
            },
            None => {
                let old_data = self.data.duplicate();
                self.child.event(ctx, event, &mut self.data, env);
                let ghost seen = *self;
                let ghost mid = *ctx;
                self.update_within(ctx, env);
                let ghost after = *ctx;
                if self.sync && !old_data.same(&self.data) {
                    ctx.submit_command(
                        Command::with_payload(
                            SUB_WINDOW_HOST_TO_PARENT,
                            Target::Widget(self.parent_id),
                            self.data.to_payload(),
                        ),
                    );
                }
                proof {
                    let updated = choose|updated: UpdateCtx|
                        Self::updated_from(&seen, &mid, env, &updated, self, &after);
                    assert(after == spec_updated_within(&mid, &updated));
                    assert(Self::event_from(
                        old(self),
                        old(ctx),
                        event,
                        env,
                        &seen,
                        &mid,
                        &updated,
                        self,
                        ctx,
                    ));
                }
            },
        }
    }

    fn lifecycle(&mut self, ctx: &mut LifeCycleCtx, event: &LifeCycle, data: &(), env: &Env) {
        self.child.lifecycle(ctx, event, &self.data, env)
    }

    fn update(&mut self, ctx: &mut UpdateCtx, old_data: &(), data: &(), env: &Env) {
    }

    fn layout(&mut self, ctx: &mut LayoutCtx, bc: &BoxConstraints, data: &(), env: &Env) -> (size:
        Size) {
        let size = self.child.layout(ctx, bc, &self.data, env);
        let ghost laid = self.child;
        self.child.set_layout_rect(Rect::from_origin_size(Point::zero(), size));
        proof {
            assert(laid == (Pod {
                state: PodState {
                    layout_rect: spec_laid_rect(&old(self).child, size),
                    ..self.child.state
                },
                ..self.child
            }));
        }
        size
    }

    fn paint(&mut self, ctx: &mut PaintCtx, data: &(), env: &Env) {
        self.child.paint_raw(ctx, &self.data, env);
    }
}

} // verus!
