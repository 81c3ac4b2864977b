//! A widget over a part of the data, placed in a tree over the whole.

use vstd::prelude::*;
use std::marker::PhantomData;
use crate::context::{Env, EventCtx, LayoutCtx, LifeCycleCtx, PaintCtx, UpdateCtx};
use crate::data::Data;
use crate::event::{Event, LifeCycle};
use crate::geometry::{BoxConstraints, Size};
use crate::lens::Lens;
use crate::widget::Widget;

verus! {

/// A widget over data of type `U`, made into a widget over the data that
/// the lens shows a part of: every phase sees the part, and what an event
/// changes of the part is written back into the whole.
pub struct LensWrap<U, L, W> {
    pub lens: L,
    pub inner: W,
    pub phantom: PhantomData<U>,
}

impl<U, L, W> LensWrap<U, L, W> {
    pub fn new(inner: W, lens: L) -> (r: Self)
        ensures
            r.inner == inner,
            r.lens == lens,
    {
        LensWrap { lens, inner, phantom: PhantomData }
    }

    /// The widget inside.
    pub fn wrapped(&self) -> (r: &W)
        ensures
            *r == self.inner,
    {
        &self.inner
    }
}

impl<T, U: Data, L: Lens<T, U>, W: Widget<U>> Widget<T> for LensWrap<U, L, W> {
    open spec fn wf(&self) -> bool {
        self.inner.wf()
    }

    /// The widget inside handles the event over the part, and the data
    /// after the event is the data before with the part as the widget left
    /// it.
    open spec fn event_post(
        pre: &Self,
        ctx0: &EventCtx,
        event: &Event,
        data0: &T,
        env: &Env,
        post: &Self,
        ctx1: &EventCtx,
        data1: &T,
    ) -> bool {
        &&& post.lens == pre.lens
        &&& W::event_post(
            &pre.inner,
            ctx0,
            event,
            &pre.lens.get_spec(data0),
            env,
            &post.inner,
            ctx1,
            &pre.lens.get_spec(data1),
        )
        &&& *data1 == pre.lens.put_spec(*data0, pre.lens.get_spec(data1))
    }

    open spec fn lifecycle_post(
        pre: &Self,
        ctx0: &LifeCycleCtx,
        event: &LifeCycle,
        data: &T,
        env: &Env,
        post: &Self,
        ctx1: &LifeCycleCtx,
    ) -> bool {
        &&& post.lens == pre.lens
        &&& W::lifecycle_post(
            &pre.inner,
            ctx0,
            event,
            &pre.lens.get_spec(data),
            env,
            &post.inner,
            ctx1,
        )
    }

    /// The widget inside has its update pass where the part changed; a
    /// change of the rest of the data passes it by.
    open spec fn update_post(
        pre: &Self,
        ctx0: &UpdateCtx,
        old_data: &T,
        data: &T,
        env: &Env,
        post: &Self,
        ctx1: &UpdateCtx,
    ) -> bool {
        if pre.lens.get_spec(old_data).same_spec(&pre.lens.get_spec(data)) {
            *post == *pre && *ctx1 == *ctx0
        } else {
            &&& post.lens == pre.lens
            &&& W::update_post(
                &pre.inner,
                ctx0,
                &pre.lens.get_spec(old_data),
                &pre.lens.get_spec(data),
                env,
                &post.inner,
                ctx1,
            )
        }
    }

    open spec fn layout_post(
        pre: &Self,
        ctx0: &LayoutCtx,
        bc: &BoxConstraints,
        data: &T,
        env: &Env,
        post: &Self,
        ctx1: &LayoutCtx,
        size: Size,
    ) -> bool {
        &&& post.lens == pre.lens
        &&& W::layout_post(
            &pre.inner,
            ctx0,
            bc,
            &pre.lens.get_spec(data),
            env,
            &post.inner,
            ctx1,
            size,
        )
    }

    open spec fn paint_post(
        pre: &Self,
        ctx0: &PaintCtx,
        data: &T,
        env: &Env,
        post: &Self,
        ctx1: &PaintCtx,
    ) -> bool {
        &&& post.lens == pre.lens
        &&& W::paint_post(&pre.inner, ctx0, &pre.lens.get_spec(data), env, &post.inner, ctx1)
    }

    fn event(&mut self, ctx: &mut EventCtx, event: &Event, data: &mut T, env: &Env) {
        let part = self.lens.get_mut(data);
        self.inner.event(ctx, event, part, env);
        proof {
            self.lens.lemma_put_get(*old(data), *part);
        }
    }

    fn lifecycle(&mut self, ctx: &mut LifeCycleCtx, event: &LifeCycle, data: &T, env: &Env) {
        self.inner.lifecycle(ctx, event, self.lens.get(data), env)
    }

    fn update(&mut self, ctx: &mut UpdateCtx, old_data: &T, data: &T, env: &Env) {
        let before = self.lens.get(old_data);
        let now = self.lens.get(data);
        if !before.same(now) {
            self.inner.update(ctx, before, now, env);
        }
    }

    fn layout(&mut self, ctx: &mut LayoutCtx, bc: &BoxConstraints, data: &T, env: &Env) -> (size:
        Size) {
        self.inner.layout(ctx, bc, self.lens.get(data), env)
    }

    fn paint(&mut self, ctx: &mut PaintCtx, data: &T, env: &Env) {
        self.inner.paint(ctx, self.lens.get(data), env)
    }
}

} // verus!
