//! Plain leaves: a line of text, a counter of presses, and a stepper that
//! changes its data.

use vstd::prelude::*;
use crate::context::{
    Env, EventCtx, LayoutCtx, LifeCycleCtx, PaintCtx, PaintOp, Requests, UpdateCtx, BUTTON_DARK,
    LABEL_COLOR,
};
use crate::event::{Event, LifeCycle};
use crate::geometry::{sat_add, saturate, BoxConstraints, Point, Size};
use crate::widget::Widget;

verus! {

/// A line of text of a given size. It ignores events and data.
#[derive(Debug)]
pub struct Label {
    pub text: String,
    pub size: Size,
}

impl Label {
    /// The size a label takes where none is given.
    pub open spec fn spec_default_size() -> Size {
        Size { width: 80, height: 20 }
    }

    /// A label of the usual size.
    pub fn new(text: String) -> (r: Label)
        ensures
            r.text == text,
            r.size == Self::spec_default_size(),
    {
        Label { text, size: Size { width: 80, height: 20 } }
    }

    /// This label with another size.
    pub fn with_size(self, size: Size) -> (r: Label)
        ensures
            r.text == self.text,
            r.size == size,
    {
        Label { text: self.text, size }
    }

    pub fn text(&self) -> (r: &String)
        ensures
            *r == self.text,
    {
        &self.text
    }
}

impl<T> Widget<T> for Label {
    open spec fn wf(&self) -> bool {
        true
    }

    open spec fn event_post(
        pre: &Self,
        ctx0: &EventCtx,
        event: &Event,
        data0: &T,
        env: &Env,
        post: &Self,
        ctx1: &EventCtx,
        data1: &T,
    ) -> bool {
        *post == *pre && *ctx1 == *ctx0 && *data1 == *data0
    }

    open spec fn lifecycle_post(
        pre: &Self,
        ctx0: &LifeCycleCtx,
        event: &LifeCycle,
        data: &T,
        env: &Env,
        post: &Self,
        ctx1: &LifeCycleCtx,
    ) -> bool {
        *post == *pre && *ctx1 == *ctx0
    }

    open spec fn update_post(
        pre: &Self,
        ctx0: &UpdateCtx,
        old_data: &T,
        data: &T,
        env: &Env,
        post: &Self,
        ctx1: &UpdateCtx,
    ) -> bool {
        *post == *pre && *ctx1 == *ctx0
    }

    open spec fn layout_post(
        pre: &Self,
        ctx0: &LayoutCtx,
        bc: &BoxConstraints,
        data: &T,
        env: &Env,
        post: &Self,
        ctx1: &LayoutCtx,
        size: Size,
    ) -> bool {
        *post == *pre && *ctx1 == *ctx0 && size == bc.spec_constrain(pre.size)
    }

    open spec fn paint_post(
        pre: &Self,
        ctx0: &PaintCtx,
        data: &T,
        env: &Env,
        post: &Self,
        ctx1: &PaintCtx,
    ) -> bool {
        &&& *post == *pre
        &&& ctx1.frame == ctx0.frame
        &&& ctx1.ops@ == ctx0.ops@.push(
            PaintOp::Text {
                origin: Point { x: 0, y: 0 },
                text: pre.text,
                colour: env.spec_colour(LABEL_COLOR),
            },
        )
    }

    fn event(&mut self, ctx: &mut EventCtx, event: &Event, data: &mut T, env: &Env) {
    }

    fn lifecycle(&mut self, ctx: &mut LifeCycleCtx, event: &LifeCycle, data: &T, env: &Env) {
    }

    fn update(&mut self, ctx: &mut UpdateCtx, old_data: &T, data: &T, env: &Env) {
    }

    fn layout(&mut self, ctx: &mut LayoutCtx, bc: &BoxConstraints, data: &T, env: &Env) -> (size:
        Size) {
        bc.constrain(self.size)
    }

    fn paint(&mut self, ctx: &mut PaintCtx, data: &T, env: &Env) {
        ctx.text(Point::zero(), self.text.clone(), env.colour(LABEL_COLOR));
    }
}

/// A leaf that counts the pointer presses it hears. The count is state of the
/// node alone: it lives and dies with the node.
#[derive(Clone, Copy, Debug, PartialEq, Eq, Structural)]
pub struct ClickCounter {
    pub clicks: u64,
    pub size: Size,
}

impl ClickCounter {
    /// A counter at zero.
    pub fn new(size: Size) -> (r: ClickCounter)
        ensures
            r == (ClickCounter { clicks: 0, size }),
    {
        ClickCounter { clicks: 0, size }
    }

    pub fn clicks(&self) -> (r: u64)
        ensures
            r == self.clicks,
    {
        self.clicks
    }

    /// The count after one more press; it stops at the last `u64`.
    pub open spec fn spec_pressed(clicks: u64) -> u64 {
        if clicks < u64::MAX {
            (clicks + 1) as u64
        } else {
            clicks
        }
    }
}

impl<T> Widget<T> for ClickCounter {
    open spec fn wf(&self) -> bool {
        true
    }

    open spec fn event_post(
        pre: &Self,
        ctx0: &EventCtx,
        event: &Event,
        data0: &T,
        env: &Env,
        post: &Self,
        ctx1: &EventCtx,
        data1: &T,
    ) -> bool {
        &&& *data1 == *data0
        &&& if *event is MouseDown {
            &&& *post == (ClickCounter { clicks: Self::spec_pressed(pre.clicks), ..*pre })
            &&& *ctx1 == (EventCtx { requests: Requests { paint: true, ..ctx0.requests }, ..*ctx0 })
        } else {
            *post == *pre && *ctx1 == *ctx0
        }
    }

    open spec fn lifecycle_post(
        pre: &Self,
        ctx0: &LifeCycleCtx,
        event: &LifeCycle,
        data: &T,
        env: &Env,
        post: &Self,
        ctx1: &LifeCycleCtx,
    ) -> bool {
        *post == *pre && *ctx1 == *ctx0
    }

    open spec fn update_post(
        pre: &Self,
        ctx0: &UpdateCtx,
        old_data: &T,
        data: &T,
        env: &Env,
        post: &Self,
        ctx1: &UpdateCtx,
    ) -> bool {
        *post == *pre && *ctx1 == *ctx0
    }

    open spec fn layout_post(
        pre: &Self,
        ctx0: &LayoutCtx,
        bc: &BoxConstraints,
        data: &T,
        env: &Env,
        post: &Self,
        ctx1: &LayoutCtx,
        size: Size,
    ) -> bool {
        *post == *pre && *ctx1 == *ctx0 && size == bc.spec_constrain(pre.size)
    }

    open spec fn paint_post(
        pre: &Self,
        ctx0: &PaintCtx,
        data: &T,
        env: &Env,
        post: &Self,
        ctx1: &PaintCtx,
    ) -> bool {
        &&& *post == *pre
        &&& ctx1.frame == ctx0.frame
        &&& ctx1.ops@ == ctx0.ops@.push(
            PaintOp::Fill {
                rect: ctx0.frame.size.spec_to_rect(),
                colour: env.spec_colour(BUTTON_DARK),
            },
        )
    }

    fn event(&mut self, ctx: &mut EventCtx, event: &Event, data: &mut T, env: &Env) {
        match event {
            Event::MouseDown(_) => {
                if self.clicks < u64::MAX {
                    self.clicks = self.clicks + 1;
                }
                ctx.request_paint();
            },
            _ => {},
        }
    }

    fn lifecycle(&mut self, ctx: &mut LifeCycleCtx, event: &LifeCycle, data: &T, env: &Env) {
    }

    fn update(&mut self, ctx: &mut UpdateCtx, old_data: &T, data: &T, env: &Env) {
    }

    fn layout(&mut self, ctx: &mut LayoutCtx, bc: &BoxConstraints, data: &T, env: &Env) -> (size:
        Size) {
        bc.constrain(self.size)
    }

    fn paint(&mut self, ctx: &mut PaintCtx, data: &T, env: &Env) {
        let rect = ctx.size().to_rect();
        ctx.fill(rect, env.colour(BUTTON_DARK));
    }
}

/// A leaf over a number that adds its step to the number with every
/// pointer press it hears.
#[derive(Clone, Copy, Debug, PartialEq, Eq, Structural)]
pub struct Stepper {
    pub step: i64,
    pub size: Size,
}

impl Stepper {
    pub fn new(step: i64, size: Size) -> (r: Stepper)
        ensures
            r == (Stepper { step, size }),
    {
        Stepper { step, size }
    }
}

impl Widget<i64> for Stepper {
    open spec fn wf(&self) -> bool {
        true
    }

    open spec fn event_post(
        pre: &Self,
        ctx0: &EventCtx,
        event: &Event,
        data0: &i64,
        env: &Env,
        post: &Self,
        ctx1: &EventCtx,
        data1: &i64,
    ) -> bool {
        &&& *post == *pre
        &&& if *event is MouseDown {
            &&& *data1 == saturate(*data0 + pre.step)
            &&& *ctx1 == (EventCtx { requests: Requests { paint: true, ..ctx0.requests }, ..*ctx0 })
        } else {
            *data1 == *data0 && *ctx1 == *ctx0
        }
    }

    open spec fn lifecycle_post(
        pre: &Self,
        ctx0: &LifeCycleCtx,
        event: &LifeCycle,
        data: &i64,
        env: &Env,
        post: &Self,
        ctx1: &LifeCycleCtx,
    ) -> bool {
        *post == *pre && *ctx1 == *ctx0
    }

    /// A change of the number asks for paint.
    open spec fn update_post(
        pre: &Self,
        ctx0: &UpdateCtx,
        old_data: &i64,
        data: &i64,
        env: &Env,
        post: &Self,
        ctx1: &UpdateCtx,
    ) -> bool {
        &&& *post == *pre
        &&& *ctx1 == if *old_data != *data {
            UpdateCtx { requests: Requests { paint: true, ..ctx0.requests }, ..*ctx0 }
        } else {
            *ctx0
        }
    }

    open spec fn layout_post(
        pre: &Self,
        ctx0: &LayoutCtx,
        bc: &BoxConstraints,
        data: &i64,
        env: &Env,
        post: &Self,
        ctx1: &LayoutCtx,
        size: Size,
    ) -> bool {
        *post == *pre && *ctx1 == *ctx0 && size == bc.spec_constrain(pre.size)
    }

    open spec fn paint_post(
        pre: &Self,
        ctx0: &PaintCtx,
        data: &i64,
        env: &Env,
        post: &Self,
        ctx1: &PaintCtx,
    ) -> bool {
        &&& *post == *pre
        &&& ctx1.frame == ctx0.frame
        &&& ctx1.ops@ == ctx0.ops@.push(
            PaintOp::Fill {
                rect: ctx0.frame.size.spec_to_rect(),
                colour: env.spec_colour(BUTTON_DARK),
            },
        )
    }

    fn event(&mut self, ctx: &mut EventCtx, event: &Event, data: &mut i64, env: &Env) {
        match event {
            Event::MouseDown(_) => {
                *data = sat_add(*data, self.step);
                ctx.request_paint();
            },
            _ => {},
        }
    }

    fn lifecycle(&mut self, ctx: &mut LifeCycleCtx, event: &LifeCycle, data: &i64, env: &Env) {
    }

    fn update(&mut self, ctx: &mut UpdateCtx, old_data: &i64, data: &i64, env: &Env) {
        if *old_data != *data {
            ctx.request_paint();
        }
    }

    fn layout(&mut self, ctx: &mut LayoutCtx, bc: &BoxConstraints, data: &i64, env: &Env) -> (size:
        Size) {
        bc.constrain(self.size)
    }

    fn paint(&mut self, ctx: &mut PaintCtx, data: &i64, env: &Env) {
        let rect = ctx.size().to_rect();
        ctx.fill(rect, env.colour(BUTTON_DARK));
    }
}

} // verus!
