//! A widget with a piece of information attached for its parent to read.

use vstd::prelude::*;
use crate::context::{Env, EventCtx, LayoutCtx, LifeCycleCtx, PaintCtx, UpdateCtx};
use crate::event::{Event, LifeCycle};
use crate::geometry::{BoxConstraints, Size};
use crate::widget::Widget;

verus! {

/// A widget together with an augmentation: information about the child that
/// its container reads, such as how the child shares the container's room.
/// The widget behaves as it would alone.
pub struct Augmented<W, Aug> {
    pub widget: W,
    pub augment: Aug,
}

impl<W, Aug> Augmented<W, Aug> {
    pub fn new(widget: W, augment: Aug) -> (r: Self)
        ensures
            r.widget == widget,
            r.augment == augment,
    {
        Augmented { widget, augment }
    }

    /// The attached information.
    pub fn augmentation(&self) -> (r: &Aug)
        ensures
            *r == self.augment,
    {
        &self.augment
    }

    /// The widget inside.
    pub fn widget(&self) -> (r: &W)
        ensures
            *r == self.widget,
    {
        &self.widget
    }
}

impl<T, W: Widget<T>, Aug> Widget<T> for Augmented<W, Aug> {
    open spec fn wf(&self) -> bool {
        self.widget.wf()
    }

    open spec fn event_post(
        pre: &Self,
        ctx0: &EventCtx,
        event: &Event,
        data0: &T,
        env: &Env,
        post: &Self,
        ctx1: &EventCtx,
        data1: &T,
    ) -> bool {
        &&& post.augment == pre.augment
        &&& W::event_post(&pre.widget, ctx0, event, data0, env, &post.widget, ctx1, data1)
    }

    open spec fn lifecycle_post(
        pre: &Self,
        ctx0: &LifeCycleCtx,
        event: &LifeCycle,
        data: &T,
        env: &Env,
        post: &Self,
        ctx1: &LifeCycleCtx,
    ) -> bool {
        &&& post.augment == pre.augment
        &&& W::lifecycle_post(&pre.widget, ctx0, event, data, env, &post.widget, ctx1)
    }

    open spec fn update_post(
        pre: &Self,
        ctx0: &UpdateCtx,
        old_data: &T,
        data: &T,
        env: &Env,
        post: &Self,
        ctx1: &UpdateCtx,
    ) -> bool {
        &&& post.augment == pre.augment
        &&& W::update_post(&pre.widget, ctx0, old_data, data, env, &post.widget, ctx1)
    }

    open spec fn layout_post(
        pre: &Self,
        ctx0: &LayoutCtx,
        bc: &BoxConstraints,
        data: &T,
        env: &Env,
        post: &Self,
        ctx1: &LayoutCtx,
        size: Size,
    ) -> bool {
        &&& post.augment == pre.augment
        &&& W::layout_post(&pre.widget, ctx0, bc, data, env, &post.widget, ctx1, size)
    }

    open spec fn paint_post(
        pre: &Self,
        ctx0: &PaintCtx,
        data: &T,
        env: &Env,
        post: &Self,
        ctx1: &PaintCtx,
    ) -> bool {
        &&& post.augment == pre.augment
        &&& W::paint_post(&pre.widget, ctx0, data, env, &post.widget, ctx1)
    }

    fn event(&mut self, ctx: &mut EventCtx, event: &Event, data: &mut T, env: &Env) {
        self.widget.event(ctx, event, data, env)
    }

    fn lifecycle(&mut self, ctx: &mut LifeCycleCtx, event: &LifeCycle, data: &T, env: &Env) {
        self.widget.lifecycle(ctx, event, data, env)
    }

    fn update(&mut self, ctx: &mut UpdateCtx, old_data: &T, data: &T, env: &Env) {
        self.widget.update(ctx, old_data, data, env)
    }

    fn layout(&mut self, ctx: &mut LayoutCtx, bc: &BoxConstraints, data: &T, env: &Env) -> (size:
        Size) {
        self.widget.layout(ctx, bc, data, env)
    }

    fn paint(&mut self, ctx: &mut PaintCtx, data: &T, env: &Env) {
        self.widget.paint(ctx, data, env)
    }
}

} // verus!
