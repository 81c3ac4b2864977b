//! The root of a tree and the order of the phases in one round: event,
//! update, layout, paint.

use vstd::prelude::*;
use crate::context::{Env, EventCtx, Frame, LayoutCtx, LifeCycleCtx, PaintCtx, Requests, UpdateCtx};
use crate::data::Data;
use crate::event::{Event, IdSource, LifeCycle, WidgetId, ROUTE_WIDGET_ADDED};
use crate::geometry::{BoxConstraints, Point, Rect, Size};
use crate::slots::spec_laid_rect;
use crate::widget::{Pod, PodState, Widget};

verus! {

/// The tree of one window: its root node, the source that the identities
/// of its nodes are drawn from, and the size of the window.
pub struct Window<T, W> {
    pub root: Pod<T, W>,
    pub ids: IdSource,
    pub size: Size,
}

/// What the phases of one round left behind, for the host to act on: the
/// commands to deliver in the next round, the requests, the warnings, and
/// the draw instructions. A phase that did not run left nothing.
pub struct Round {
    pub event: EventCtx,
    pub update: UpdateCtx,
    pub joined: Option<LifeCycleCtx>,
    pub layout: Option<LayoutCtx>,
    pub paint: Option<PaintCtx>,
}

impl<T: Data, W: Widget<T>> Window<T, W> {
    /// A window of the given size around `root`. The root has not joined
    /// the tree yet.
    pub fn new(ids: IdSource, size: Size, root: W) -> (r: Self)
        requires
            root.wf(),
        ensures
            r.spec_wf(),
            r.size == size,
            r.root.inner == root,
            r.root.old_data is None,
            r.root.state == PodState::spec_initial(WidgetId(ids.next)),
            r.ids.next == IdSource::after_draw(ids.next),
    {
        let mut ids = ids;
        let root = Pod::new(&mut ids, root);
        Window { root, ids, size }
    }

    pub open spec fn spec_wf(&self) -> bool {
        self.root.wf()
    }

    /// The frame in which the root is handed a phase.
    pub open spec fn spec_frame(&self) -> Frame {
        Frame {
            widget_id: self.root.state.id,
            is_hot: false,
            is_active: false,
            has_focus: false,
            size: self.size,
        }
    }

    fn frame(&self) -> (r: Frame)
        ensures
            r == self.spec_frame(),
    {
        Frame {
            widget_id: self.root.id(),
            is_hot: false,
            is_active: false,
            has_focus: false,
            size: self.size,
        }
    }

    /// One event phase, told with the context `began` that the root was
    /// handed.
    pub open spec fn handled_from(
        pre: &Self,
        event: &Event,
        data0: &T,
        env: &Env,
        began: &EventCtx,
        post: &Self,
        out: &EventCtx,
        data1: &T,
    ) -> bool {
        &&& began.frame == pre.spec_frame()
        &&& !began.is_handled
        &&& began.requests == Requests::spec_none()
        &&& began.commands@.len() == 0
        &&& began.ids == pre.ids
        &&& Pod::event_post(
            &pre.root,
            began,
            event,
            data0,
            env,
            &post.root,
            &(EventCtx { ids: post.ids, ..*out }),
            data1,
        )
        &&& post.size == pre.size
    }

    /// What the event phase does: the root is handed the event in a fresh
    /// context.
    pub open spec fn handled(
        pre: &Self,
        event: &Event,
        data0: &T,
        env: &Env,
        post: &Self,
        out: &EventCtx,
        data1: &T,
    ) -> bool {
        exists|began: EventCtx| #[trigger]
            Self::handled_from(pre, event, data0, env, &began, post, out, data1)
    }

    /// Hands one event to the tree.
    pub fn event(&mut self, event: &Event, data: &mut T, env: &Env) -> (out: EventCtx)
        requires
            old(self).spec_wf(),
        ensures
            final(self).spec_wf(),
            Self::handled(old(self), event, old(data), env, final(self), &out, final(data)),
    {
        let mut ctx = EventCtx::new(self.frame(), IdSource::new());
        std::mem::swap(&mut ctx.ids, &mut self.ids);
        let ghost began = ctx;
        self.root.event(&mut ctx, event, data, env);
        std::mem::swap(&mut ctx.ids, &mut self.ids);
        proof {
            assert(Self::handled_from(old(self), event, old(data), env, &began, self, &ctx, data));
        }
        ctx
    }

    /// One lifecycle phase, told with the context `began` that the root was
    /// handed.
    pub open spec fn noted_from(
        pre: &Self,
        event: &LifeCycle,
        data: &T,
        env: &Env,
        began: &LifeCycleCtx,
        post: &Self,
        out: &LifeCycleCtx,
    ) -> bool {
        &&& began.frame == pre.spec_frame()
        &&& began.requests == Requests::spec_none()
        &&& began.commands@.len() == 0
        &&& began.ids == pre.ids
        &&& Pod::lifecycle_post(
            &pre.root,
            began,
            event,
            data,
            env,
            &post.root,
            &(LifeCycleCtx { ids: post.ids, ..*out }),
        )
        &&& post.size == pre.size
    }

    /// What the lifecycle phase does: the root is handed the notice in a
    /// fresh context.
    pub open spec fn noted(
        pre: &Self,
        event: &LifeCycle,
        data: &T,
        env: &Env,
        post: &Self,
        out: &LifeCycleCtx,
    ) -> bool {
        exists|began: LifeCycleCtx| #[trigger]
            Self::noted_from(pre, event, data, env, &began, post, out)
    }

    /// Hands one structural notice to the tree.
    pub fn lifecycle(&mut self, event: &LifeCycle, data: &T, env: &Env) -> (out: LifeCycleCtx)
        requires
            old(self).spec_wf(),
        ensures
            final(self).spec_wf(),
            Self::noted(old(self), event, data, env, final(self), &out),
    {
        let mut ctx = LifeCycleCtx::new(self.frame(), IdSource::new());
        std::mem::swap(&mut ctx.ids, &mut self.ids);
        let ghost began = ctx;
        self.root.lifecycle(&mut ctx, event, data, env);
        std::mem::swap(&mut ctx.ids, &mut self.ids);
        proof {
            assert(Self::noted_from(old(self), event, data, env, &began, self, &ctx));
        }
        ctx
    }

    /// One update phase, told with the context `began` that the root was
    /// handed.
    pub open spec fn updated_from(
        pre: &Self,
        data: &T,
        env: &Env,
        began: &UpdateCtx,
        post: &Self,
        out: &UpdateCtx,
    ) -> bool {
        &&& began.frame == pre.spec_frame()
        &&& began.requests == Requests::spec_none()
        &&& began.commands@.len() == 0
        &&& began.ids == pre.ids
        &&& Pod::update_post(
            &pre.root,
            began,
            data,
            env,
            &post.root,
            &(UpdateCtx { ids: post.ids, ..*out }),
        )
        &&& post.size == pre.size
    }

    /// What the update phase does: the root has its update pass in a fresh
    /// context. The pass reaches a node only where its data changed or an
    /// update was asked for.
    pub open spec fn updated(pre: &Self, data: &T, env: &Env, post: &Self, out: &UpdateCtx) -> bool {
        exists|began: UpdateCtx| #[trigger] Self::updated_from(pre, data, env, &began, post, out)
    }

    /// Runs an update pass over the tree.
    pub fn update(&mut self, data: &T, env: &Env) -> (out: UpdateCtx)
        requires
            old(self).spec_wf(),
        ensures
            final(self).spec_wf(),
            Self::updated(old(self), data, env, final(self), &out),
    {
        let mut ctx = UpdateCtx::new(self.frame(), IdSource::new());
        std::mem::swap(&mut ctx.ids, &mut self.ids);
        let ghost began = ctx;
        self.root.update(&mut ctx, data, env);
        std::mem::swap(&mut ctx.ids, &mut self.ids);
        proof {
            assert(Self::updated_from(old(self), data, env, &began, self, &ctx));
        }
        ctx
    }

    /// The constraints of the root: the size of the window, exactly.
    pub open spec fn spec_constraints(&self) -> BoxConstraints {
        BoxConstraints { min: self.size, max: self.size }
    }

    /// One layout phase, told with the context `began` that the root was
    /// handed and the size that the root took.
    pub open spec fn laid_from(
        pre: &Self,
        data: &T,
        env: &Env,
        began: &LayoutCtx,
        size: Size,
        post: &Self,
        out: &LayoutCtx,
    ) -> bool {
        &&& began.frame == pre.spec_frame()
        &&& began.commands@.len() == 0
        &&& began.warnings@.len() == 0
        &&& Pod::layout_post(
            &pre.root,
            began,
            &pre.spec_constraints(),
            data,
            env,
            &(Pod {
                state: PodState {
                    layout_rect: spec_laid_rect(&pre.root, size),
                    ..post.root.state
                },
                ..post.root
            }),
            out,
            size,
        )
        &&& post.root.state.layout_rect == Rect::spec_from_origin_size(Point { x: 0, y: 0 }, size)
        &&& post.size == pre.size
        &&& post.ids == pre.ids
    }

    /// What the layout phase does: the root is laid out in the window and
    /// placed at its origin.
    pub open spec fn laid(pre: &Self, data: &T, env: &Env, post: &Self, out: &LayoutCtx) -> bool {
        exists|began: LayoutCtx, size: Size| #[trigger]
            Self::laid_from(pre, data, env, &began, size, post, out)
    }

    /// Lays the tree out in the window.
    pub fn layout(&mut self, data: &T, env: &Env) -> (out: LayoutCtx)
        requires
            old(self).spec_wf(),
        ensures
            final(self).spec_wf(),
            Self::laid(old(self), data, env, final(self), &out),
    {
        let mut ctx = LayoutCtx::new(self.frame());
        let ghost began = ctx;
        let bc = BoxConstraints::tight(self.size);
        let size = self.root.layout(&mut ctx, &bc, data, env);
        let ghost laid = self.root;
        self.root.set_layout_rect(Rect::from_origin_size(Point::zero(), size));
        proof {
            assert(laid == (Pod {
                state: PodState {
                    layout_rect: spec_laid_rect(&old(self).root, size),
                    ..self.root.state
                },
                ..self.root
            }));
            assert(Self::laid_from(old(self), data, env, &began, size, self, &ctx));
        }
        ctx
    }

    /// One paint phase, told with the context `began` that the root was
    /// handed.
    pub open spec fn painted_from(
        pre: &Self,
        data: &T,
        env: &Env,
        began: &PaintCtx,
        post: &Self,
        out: &PaintCtx,
    ) -> bool {
        &&& began.frame == pre.spec_frame()
        &&& began.ops@.len() == 0
        &&& Pod::paint_post(&pre.root, began, data, env, &post.root, out)
        &&& post.size == pre.size
        &&& post.ids == pre.ids
    }

    /// What the paint phase does: the root paints on an empty surface.
    /// Painting reads the data and does not change it.
    pub open spec fn painted(pre: &Self, data: &T, env: &Env, post: &Self, out: &PaintCtx) -> bool {
        exists|began: PaintCtx| #[trigger] Self::painted_from(pre, data, env, &began, post, out)
    }

    /// Paints the tree.
    pub fn paint(&mut self, data: &T, env: &Env) -> (out: PaintCtx)
        requires
            old(self).spec_wf(),
        ensures
            final(self).spec_wf(),
            Self::painted(old(self), data, env, final(self), &out),
    {
        let mut ctx = PaintCtx::new(self.frame());
        let ghost began = ctx;
        self.root.paint(&mut ctx, data, env);
        proof {
            assert(Self::painted_from(old(self), data, env, &began, self, &ctx));
        }
        ctx
    }

    /// One round, told with the window as each phase left it.
    ///
    /// The phases run in a fixed order: the event; then the update pass;
    /// then, where the set of nodes changed, the notice that routes the new
    /// nodes into the tree; then the layout, where any node asked for it;
    /// then paint, where any node asked for it.
    pub open spec fn round_from(
        pre: &Self,
        event: &Event,
        data0: &T,
        env: &Env,
        after_event: &Self,
        after_update: &Self,
        after_join: &Self,
        after_layout: &Self,
        post: &Self,
        data1: &T,
        out: &Round,
    ) -> bool {
        &&& Self::handled(pre, event, data0, env, after_event, &out.event, data1)
        &&& Self::updated(after_event, data1, env, after_update, &out.update)
        &&& if after_update.root.state.children_changed {
            &&& out.joined is Some
            &&& Self::noted(
                after_update,
                &LifeCycle::Internal(ROUTE_WIDGET_ADDED),
                data1,
                env,
                after_join,
                &out.joined->0,
            )
        } else {
            out.joined is None && *after_join == *after_update
        }
        &&& if after_join.root.state.needs_layout {
            out.layout is Some && Self::laid(after_join, data1, env, after_layout, &out.layout->0)
        } else {
            out.layout is None && *after_layout == *after_join
        }
        &&& if after_layout.root.state.needs_paint {
            out.paint is Some && Self::painted(after_layout, data1, env, post, &out.paint->0)
        } else {
            out.paint is None && *post == *after_layout
        }
    }

    /// Takes the tree through one round for one event.
    pub fn round(&mut self, event: &Event, data: &mut T, env: &Env) -> (out: Round)
        requires
            old(self).spec_wf(),
        ensures
            final(self).spec_wf(),
            exists|after_event: Self, after_update: Self, after_join: Self, after_layout: Self|
                #[trigger] Self::round_from(
                    old(self),
                    event,
                    old(data),
                    env,
                    &after_event,
                    &after_update,
                    &after_join,
                    &after_layout,
                    final(self),
                    final(data),
                    &out,
                ),
    {
        let event_out = self.event(event, data, env);
        let ghost after_event = *self;
        let update_out = self.update(data, env);
        let ghost after_update = *self;
        let joined = if self.root.state.children_changed {
            Some(self.lifecycle(&LifeCycle::Internal(ROUTE_WIDGET_ADDED), data, env))
        } else {
            None
        };
        let ghost after_join = *self;
        let layout = if self.root.state.needs_layout {
            Some(self.layout(data, env))
        } else {
            None
        };
        let ghost after_layout = *self;
        let paint = if self.root.state.needs_paint {
            Some(self.paint(data, env))
        } else {
            None
        };
        let out = Round { event: event_out, update: update_out, joined, layout, paint };
        proof {
            assert(Self::round_from(
                old(self),
                event,
                old(data),
                env,
                &after_event,
                &after_update,
                &after_join,
                &after_layout,
                self,
                data,
                &out,
            ));
        }
        out
    }
}

} // verus!
