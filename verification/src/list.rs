//! A widget that shows the children of a content set one behind the other
//! along an axis.

use vstd::prelude::*;
use std::marker::PhantomData;
use crate::chain::{linked, threaded};
use crate::content::{Content, EnsuredPod};
use crate::context::{Env, EventCtx, LayoutCtx, LifeCycleCtx, PaintCtx, Requests, UpdateCtx};
use crate::data::{spec_cap, Data};
use crate::event::{Event, LifeCycle};
use crate::geometry::{max_i64, sat_add, Axis, BoxConstraints, Rect, Size};
use crate::slots::spec_laid_rect;
use crate::stacking::{lemma_offsets_prefix, spec_measured, spec_offset, spec_tallest};
use crate::widget::{Pod, PodState, Widget};

verus! {

/// The step of a row of event turns: the child at place `i` hears the event.
pub open spec fn child_event_step<T: Data, W: Widget<T>, Aug>(
    pre: Seq<EnsuredPod<T, W, Aug>>,
    event: &Event,
    env: &Env,
    post: Seq<EnsuredPod<T, W, Aug>>,
) -> spec_fn(int, (EventCtx, T), (EventCtx, T)) -> bool {
    |i: int, a: (EventCtx, T), b: (EventCtx, T)|
        Pod::event_post(&pre[i].pod, &a.0, event, &a.1, env, &post[i].pod, &b.0, &b.1)
}

/// The step of a row of lifecycle turns.
pub open spec fn child_lifecycle_step<T: Data, W: Widget<T>, Aug>(
    pre: Seq<EnsuredPod<T, W, Aug>>,
    event: &LifeCycle,
    data: &T,
    env: &Env,
    post: Seq<EnsuredPod<T, W, Aug>>,
) -> spec_fn(int, LifeCycleCtx, LifeCycleCtx) -> bool {
    |i: int, a: LifeCycleCtx, b: LifeCycleCtx|
        Pod::lifecycle_post(&pre[i].pod, &a, event, data, env, &post[i].pod, &b)
}

/// The step of a row of update turns.
pub open spec fn child_update_step<T: Data, W: Widget<T>, Aug>(
    pre: Seq<EnsuredPod<T, W, Aug>>,
    data: &T,
    env: &Env,
    post: Seq<EnsuredPod<T, W, Aug>>,
) -> spec_fn(int, UpdateCtx, UpdateCtx) -> bool {
    |i: int, a: UpdateCtx, b: UpdateCtx|
        Pod::update_post(&pre[i].pod, &a, data, env, &post[i].pod, &b)
}

/// The step of a row of paint turns.
pub open spec fn child_paint_step<T: Data, W: Widget<T>, Aug>(
    pre: Seq<EnsuredPod<T, W, Aug>>,
    data: &T,
    env: &Env,
    post: Seq<EnsuredPod<T, W, Aug>>,
) -> spec_fn(int, PaintCtx, PaintCtx) -> bool {
    |i: int, a: PaintCtx, b: PaintCtx|
        Pod::paint_post(&pre[i].pod, &a, data, env, &post[i].pod, &b)
}

/// What the layout of the child at place `i` does: the child is laid out
/// within the constraints, takes the size `size`, and is placed at `place`.
pub open spec fn child_laid<T: Data, W: Widget<T>>(
    pre: &Pod<T, W>,
    ctx0: &LayoutCtx,
    bc: &BoxConstraints,
    data: &T,
    env: &Env,
    size: Size,
    place: Rect,
    post: &Pod<T, W>,
    ctx1: &LayoutCtx,
) -> bool {
    &&& Pod::layout_post(
        pre,
        ctx0,
        bc,
        data,
        env,
        &(Pod {
            state: PodState { layout_rect: spec_laid_rect(pre, size), ..post.state },
            ..*post
        }),
        ctx1,
        size,
    )
    &&& post.state.layout_rect == place
}

/// The step of a row of layouts: the child at place `i` is laid out within
/// the constraints, takes the size `sizes[i]`, and is placed behind the
/// children before it.
pub open spec fn child_layout_step<T: Data, W: Widget<T>, Aug>(
    pre: Seq<EnsuredPod<T, W, Aug>>,
    bc: &BoxConstraints,
    data: &T,
    env: &Env,
    axis: Axis,
    sizes: Seq<Size>,
    post: Seq<EnsuredPod<T, W, Aug>>,
) -> spec_fn(int, LayoutCtx, LayoutCtx) -> bool {
    |i: int, a: LayoutCtx, b: LayoutCtx|
        child_laid(
            &pre[i].pod,
            &a,
            bc,
            data,
            env,
            sizes[i],
            spec_measured(sizes, axis, i),
            &post[i].pod,
            &b,
        )
}

/// The children that a loop over a set reaches: all that `usize` can count.
pub open spec fn spec_reach<E>(children: Seq<E>) -> int {
    spec_cap(children.len()) as int
}

/// `post` are the children `pre` after each of them, in order, has had a
/// turn that `step` describes, each seeing what the one before handed on.
pub open spec fn children_turned<E, C>(
    step: spec_fn(int, C, C) -> bool,
    pre: Seq<E>,
    start: C,
    post: Seq<E>,
    end: C,
) -> bool {
    &&& post.len() == pre.len()
    &&& linked(step, spec_reach(pre), start, end)
    &&& forall|i: int| spec_reach(pre) <= i < pre.len() ==> post[i] == pre[i]
}

/// Hands an event to every child of the set in order.
pub fn event_children<T: Data, W: Widget<T>, Aug, C: Content<T, W, Aug>>(
    content: &mut C,
    ctx: &mut EventCtx,
    event: &Event,
    data: &mut T,
    env: &Env,
)
    requires
        old(content).wf(),
    ensures
        final(content).wf(),
        C::children_replaced(old(content), final(content).children(), final(content)),
        children_turned(
            child_event_step(old(content).children(), event, env, final(content).children()),
            old(content).children(),
            (*old(ctx), *old(data)),
            final(content).children(),
            (*final(ctx), *final(data)),
        ),
{
    let ghost pre = old(content).children();
    let ghost mut trail: Seq<(EventCtx, T)> = seq![(*ctx, *data)];
    let n = content.len();
    let mut i: usize = 0;
    proof {
        old(content).lemma_replaced_none();
    }
    while i < n
        invariant
            i <= n,
            n == spec_reach(pre),
            pre == old(content).children(),
            old(content).wf(),
            content.wf(),
            C::children_replaced(old(content), content.children(), content),
            content.children().len() == pre.len(),
            forall|p: int| i <= p < pre.len() ==> content.children()[p] == pre[p],
            trail.len() == i + 1,
            trail[0] == (*old(ctx), *old(data)),
            trail[i as int] == (*ctx, *data),
            forall|p: int|
                #![trigger trail[p]]
                0 <= p < i ==> Pod::event_post(
                    &pre[p].pod,
                    &trail[p].0,
                    event,
                    &trail[p].1,
                    env,
                    &content.children()[p].pod,
                    &trail[p + 1].0,
                    &trail[p + 1].1,
                ),
        decreases n - i,
    {
        let ghost before = *content;
        proof {
            before.lemma_children_wf();
        }
        let ghost mut turned = before.children()[i as int];
        match content.child_mut(i) {
            Some(child) => {
                child.pod.event(ctx, event, data, env);
                proof {
                    turned = *child;
                }
            },
            None => {},
        }
        proof {
            C::lemma_child_replaced(&before, i as int, turned, content);
            C::lemma_replaced_more(old(content), before.children(), &before, i as int, turned, content);
            trail = trail.push((*ctx, *data));
        }
        i += 1;
    }
    proof {
        let step = child_event_step(pre, event, env, content.children());
        assert(threaded(step, n as int, trail, (*old(ctx), *old(data)), (*ctx, *data)));
    }
}

/// Hands a notice to every child of the set in order.
pub fn lifecycle_children<T: Data, W: Widget<T>, Aug, C: Content<T, W, Aug>>(
    content: &mut C,
    ctx: &mut LifeCycleCtx,
    event: &LifeCycle,
    data: &T,
    env: &Env,
)
    requires
        old(content).wf(),
    ensures
        final(content).wf(),
        C::children_replaced(old(content), final(content).children(), final(content)),
        children_turned(
            child_lifecycle_step(old(content).children(), event, data, env, final(content).children()),
            old(content).children(),
            *old(ctx),
            final(content).children(),
            *final(ctx),
        ),
{
    let ghost pre = old(content).children();
    let ghost mut trail: Seq<LifeCycleCtx> = seq![*ctx];
    let n = content.len();
    let mut i: usize = 0;
    proof {
        old(content).lemma_replaced_none();
    }
    while i < n
        invariant
            i <= n,
            n == spec_reach(pre),
            pre == old(content).children(),
            old(content).wf(),
            content.wf(),
            C::children_replaced(old(content), content.children(), content),
            content.children().len() == pre.len(),
            forall|p: int| i <= p < pre.len() ==> content.children()[p] == pre[p],
            trail.len() == i + 1,
            trail[0] == *old(ctx),
            trail[i as int] == *ctx,
            forall|p: int|
                #![trigger trail[p]]
                0 <= p < i ==> Pod::lifecycle_post(
                    &pre[p].pod,
                    &trail[p],
                    event,
                    data,
                    env,
                    &content.children()[p].pod,
                    &trail[p + 1],
                ),
        decreases n - i,
    {
        let ghost before = *content;
        proof {
            before.lemma_children_wf();
        }
        let ghost mut turned = before.children()[i as int];
        match content.child_mut(i) {
            Some(child) => {
                child.pod.lifecycle(ctx, event, data, env);
                proof {
                    turned = *child;
                }
            },
            None => {},
        }
        proof {
            C::lemma_child_replaced(&before, i as int, turned, content);
            C::lemma_replaced_more(old(content), before.children(), &before, i as int, turned, content);
            trail = trail.push(*ctx);
        }
        i += 1;
    }
    proof {
        let step = child_lifecycle_step(pre, event, data, env, content.children());
        assert(threaded(step, n as int, trail, *old(ctx), *ctx));
    }
}

/// Runs an update pass over every child of the set in order.
pub fn update_children<T: Data, W: Widget<T>, Aug, C: Content<T, W, Aug>>(
    content: &mut C,
    ctx: &mut UpdateCtx,
    data: &T,
    env: &Env,
)
    requires
        old(content).wf(),
    ensures
        final(content).wf(),
        C::children_replaced(old(content), final(content).children(), final(content)),
        children_turned(
            child_update_step(old(content).children(), data, env, final(content).children()),
            old(content).children(),
            *old(ctx),
            final(content).children(),
            *final(ctx),
        ),
{
    let ghost pre = old(content).children();
    let ghost mut trail: Seq<UpdateCtx> = seq![*ctx];
    let n = content.len();
    let mut i: usize = 0;
    proof {
        old(content).lemma_replaced_none();
    }
    while i < n
        invariant
            i <= n,
            n == spec_reach(pre),
            pre == old(content).children(),
            old(content).wf(),
            content.wf(),
            C::children_replaced(old(content), content.children(), content),
            content.children().len() == pre.len(),
            forall|p: int| i <= p < pre.len() ==> content.children()[p] == pre[p],
            trail.len() == i + 1,
            trail[0] == *old(ctx),
            trail[i as int] == *ctx,
            forall|p: int|
                #![trigger trail[p]]
                0 <= p < i ==> Pod::update_post(
                    &pre[p].pod,
                    &trail[p],
                    data,
                    env,
                    &content.children()[p].pod,
                    &trail[p + 1],
                ),
        decreases n - i,
    {
        let ghost before = *content;
        proof {
            before.lemma_children_wf();
        }
        let ghost mut turned = before.children()[i as int];
        match content.child_mut(i) {
            Some(child) => {
                child.pod.update(ctx, data, env);
                proof {
                    turned = *child;
                }
            },
            None => {},
        }
        proof {
            C::lemma_child_replaced(&before, i as int, turned, content);
            C::lemma_replaced_more(old(content), before.children(), &before, i as int, turned, content);
            trail = trail.push(*ctx);
        }
        i += 1;
    }
    proof {
        let step = child_update_step(pre, data, env, content.children());
        assert(threaded(step, n as int, trail, *old(ctx), *ctx));
    }
}

/// Lets every child of the set paint in order.
pub fn paint_children<T: Data, W: Widget<T>, Aug, C: Content<T, W, Aug>>(
    content: &mut C,
    ctx: &mut PaintCtx,
    data: &T,
    env: &Env,
)
    requires
        old(content).wf(),
    ensures
        final(content).wf(),
        C::children_replaced(old(content), final(content).children(), final(content)),
        children_turned(
            child_paint_step(old(content).children(), data, env, final(content).children()),
            old(content).children(),
            *old(ctx),
            final(content).children(),
            *final(ctx),
        ),
{
    let ghost pre = old(content).children();
    let ghost mut trail: Seq<PaintCtx> = seq![*ctx];
    let n = content.len();
    let mut i: usize = 0;
    proof {
        old(content).lemma_replaced_none();
    }
    while i < n
        invariant
            i <= n,
            n == spec_reach(pre),
            pre == old(content).children(),
            old(content).wf(),
            content.wf(),
            C::children_replaced(old(content), content.children(), content),
            content.children().len() == pre.len(),
            forall|p: int| i <= p < pre.len() ==> content.children()[p] == pre[p],
            trail.len() == i + 1,
            trail[0] == *old(ctx),
            trail[i as int] == *ctx,
            forall|p: int|
                #![trigger trail[p]]
                0 <= p < i ==> Pod::paint_post(
                    &pre[p].pod,
                    &trail[p],
                    data,
                    env,
                    &content.children()[p].pod,
                    &trail[p + 1],
                ),
        decreases n - i,
    {
        let ghost before = *content;
        proof {
            before.lemma_children_wf();
        }
        let ghost mut turned = before.children()[i as int];
        match content.child_mut(i) {
            Some(child) => {
                child.pod.paint(ctx, data, env);
                proof {
                    turned = *child;
                }
            },
            None => {},
        }
        proof {
            C::lemma_child_replaced(&before, i as int, turned, content);
            C::lemma_replaced_more(old(content), before.children(), &before, i as int, turned, content);
            trail = trail.push(*ctx);
        }
        i += 1;
    }
    proof {
        let step = child_paint_step(pre, data, env, content.children());
        assert(threaded(step, n as int, trail, *old(ctx), *ctx));
    }
}

/// Lays the children of the set out one behind the other along `axis`,
/// each within the constraints. The answer is the extent that the children
/// take along the axis, and the largest extent of a child across it.
fn layout_children<T: Data, W: Widget<T>, Aug, C: Content<T, W, Aug>>(
    content: &mut C,
    ctx: &mut LayoutCtx,
    bc: &BoxConstraints,
    axis: Axis,
    data: &T,
    env: &Env,
) -> (r: (i64, i64, Ghost<Seq<Size>>))
    requires
        old(content).wf(),
    ensures
        final(content).wf(),
        C::children_replaced(old(content), final(content).children(), final(content)),
        r.2@.len() == spec_reach(old(content).children()),
        r.0 == spec_offset(r.2@, axis, r.2@.len() as int),
        r.1 == spec_tallest(r.2@, axis, r.2@.len() as int),
        children_turned(
            child_layout_step(
                old(content).children(),
                bc,
                data,
                env,
                axis,
                r.2@,
                final(content).children(),
            ),
            old(content).children(),
            *old(ctx),
            final(content).children(),
            *final(ctx),
        ),
{
    let ghost pre = old(content).children();
    let ghost mut trail: Seq<LayoutCtx> = seq![*ctx];
    let ghost mut sizes: Seq<Size> = Seq::empty();
    let n = content.len();
    let mut major: i64 = 0;
    let mut minor: i64 = 0;
    let mut i: usize = 0;
    proof {
        old(content).lemma_replaced_none();
    }
    while i < n
        invariant
            i <= n,
            n == spec_reach(pre),
            pre == old(content).children(),
            old(content).wf(),
            content.wf(),
            C::children_replaced(old(content), content.children(), content),
            content.children().len() == pre.len(),
            forall|p: int| i <= p < pre.len() ==> content.children()[p] == pre[p],
            sizes.len() == i,
            major == spec_offset(sizes, axis, i as int),
            minor == spec_tallest(sizes, axis, i as int),
            trail.len() == i + 1,
            trail[0] == *old(ctx),
            trail[i as int] == *ctx,
            forall|p: int|
                #![trigger trail[p]]
                0 <= p < i ==> child_laid(
                    &pre[p].pod,
                    &trail[p],
                    bc,
                    data,
                    env,
                    sizes[p],
                    spec_measured(sizes, axis, p),
                    &content.children()[p].pod,
                    &trail[p + 1],
                ),
        decreases n - i,
    {
        let ghost before = *content;
        let ghost sizes_before = sizes;
        let ghost trail_before = trail;
        let ghost start = *ctx;
        proof {
            before.lemma_children_wf();
        }
        let ghost mut turned = before.children()[i as int];
        match content.child_mut(i) {
            Some(child) => {
                let size = child.pod.layout(ctx, bc, data, env);
                let ghost laid = child.pod;
                child.pod.set_layout_rect(Rect::from_origin_size(axis.pack_point(major, 0), size));
                proof {
                    turned = *child;
                    sizes = sizes.push(size);
                    assert(laid == (Pod {
                        state: PodState {
                            layout_rect: spec_laid_rect(&pre[i as int].pod, size),
                            ..child.pod.state
                        },
                        ..child.pod
                    }));
                    lemma_offsets_prefix(sizes_before, sizes, axis, i as int);
                    assert(child_laid(
                        &pre[i as int].pod,
                        &start,
                        bc,
                        data,
                        env,
                        size,
                        spec_measured(sizes, axis, i as int),
                        &child.pod,
                        ctx,
                    ));
                }
                major = sat_add(major, axis.major(size));
                minor = max_i64(minor, axis.minor(size));
            },
            None => {},
        }
        proof {
            C::lemma_child_replaced(&before, i as int, turned, content);
            C::lemma_replaced_more(old(content), before.children(), &before, i as int, turned, content);
            trail = trail.push(*ctx);
            lemma_offsets_prefix(sizes_before, sizes, axis, i as int);
            assert forall|p: int| #![trigger trail[p]] 0 <= p < i + 1 implies child_laid(
                &pre[p].pod,
                &trail[p],
                bc,
                data,
                env,
                sizes[p],
                spec_measured(sizes, axis, p),
                &content.children()[p].pod,
                &trail[p + 1],
            ) by {
                lemma_offsets_prefix(sizes_before, sizes, axis, p);
                if p < i {
                    assert(sizes[p] == sizes_before[p]);
                    assert(trail[p] == trail_before[p]);
                    assert(trail[p + 1] == trail_before[p + 1]);
                    assert(content.children()[p] == before.children()[p]);
                }
            }
        }
        i += 1;
    }
    proof {
        let step = child_layout_step(pre, bc, data, env, axis, sizes, content.children());
        assert(threaded(step, n as int, trail, *old(ctx), *ctx));
    }
    (major, minor, Ghost(sizes))
}

/// A widget that shows the children of a content set in a row or a column.
///
/// The set is filled when the widget joins the tree and brought in line
/// with the data in every update pass; whenever its children change, the
/// parent is told and layout is asked for.
pub struct List<T, W, Aug, C> {
    pub content: C,
    pub axis: Axis,
    pub phantom: PhantomData<(T, W, Aug)>,
}

impl<T: Data, W: Widget<T>, Aug, C: Content<T, W, Aug>> List<T, W, Aug, C> {
    /// A list of the children of `content` along `axis`.
    pub fn for_axis_content(axis: Axis, content: C) -> (r: Self)
        requires
            content.wf(),
        ensures
            r.spec_wf(),
            r.axis == axis,
            r.content == content,
    {
        List { content, axis, phantom: PhantomData }
    }

    pub open spec fn spec_wf(&self) -> bool {
        self.content.wf()
    }

    /// The children of the list, in order.
    pub fn content(&self) -> (r: &C)
        ensures
            *r == self.content,
    {
        &self.content
    }

    /// What the parent is asked for when the children changed.
    pub open spec fn spec_changed_requests(requests: Requests) -> Requests {
        Requests { children_changed: true, layout: true, ..requests }
    }

    /// One lifecycle phase, told with the set `filled` and the context
    /// `first` as the first notice left them.
    pub open spec fn lifecycle_from(
        pre: &Self,
        ctx0: &LifeCycleCtx,
        event: &LifeCycle,
        data: &T,
        env: &Env,
        filled: &C,
        first: &LifeCycleCtx,
        post: &Self,
        ctx1: &LifeCycleCtx,
    ) -> bool {
        &&& post.axis == pre.axis
        &&& if *event == LifeCycle::WidgetAdded {
            &&& C::added_post(&pre.content, data, env, &ctx0.ids, filled, &first.ids)
            &&& *first == (LifeCycleCtx {
                ids: first.ids,
                requests: Self::spec_changed_requests(ctx0.requests),
                ..*ctx0
            })
        } else {
            *filled == pre.content && *first == *ctx0
        }
        &&& C::children_replaced(filled, post.content.children(), &post.content)
        &&& children_turned(
            child_lifecycle_step(filled.children(), event, data, env, post.content.children()),
            filled.children(),
            *first,
            post.content.children(),
            *ctx1,
        )
    }

    /// One update phase, told with the set `refreshed` and the context
    /// `first` as the round over the data left them, and whether the
    /// children changed.
    pub open spec fn update_from(
        pre: &Self,
        ctx0: &UpdateCtx,
        old_data: &T,
        data: &T,
        env: &Env,
        refreshed: &C,
        changed: bool,
        first: &UpdateCtx,
        post: &Self,
        ctx1: &UpdateCtx,
    ) -> bool {
        &&& post.axis == pre.axis
        &&& C::update_post(&pre.content, old_data, data, env, &ctx0.ids, refreshed, &first.ids, changed)
        &&& *first == (UpdateCtx {
            ids: first.ids,
            requests: if changed {
                Self::spec_changed_requests(ctx0.requests)
            } else {
                ctx0.requests
            },
            ..*ctx0
        })
        &&& C::children_replaced(refreshed, post.content.children(), &post.content)
        &&& children_turned(
            child_update_step(refreshed.children(), data, env, post.content.children()),
            refreshed.children(),
            *first,
            post.content.children(),
            *ctx1,
        )
    }

    /// One layout phase, told with the sizes that the children took.
    pub open spec fn layout_from(
        pre: &Self,
        ctx0: &LayoutCtx,
        bc: &BoxConstraints,
        data: &T,
        env: &Env,
        sizes: Seq<Size>,
        post: &Self,
        ctx1: &LayoutCtx,
        size: Size,
    ) -> bool {
        &&& post.axis == pre.axis
        &&& C::children_replaced(&pre.content, post.content.children(), &post.content)
        &&& sizes.len() == spec_reach(pre.content.children())
        &&& children_turned(
            child_layout_step(
                pre.content.children(),
                &bc.spec_loosen(),
                data,
                env,
                pre.axis,
                sizes,
                post.content.children(),
            ),
            pre.content.children(),
            *ctx0,
            post.content.children(),
            *ctx1,
        )
        &&& size == bc.spec_constrain(
            pre.axis.spec_pack_size(
                spec_offset(sizes, pre.axis, sizes.len() as int),
                spec_tallest(sizes, pre.axis, sizes.len() as int),
            ),
        )
    }
}

impl<T: Data, W: Widget<T>, Aug, C: Content<T, W, Aug>> Widget<T> for List<T, W, Aug, C> {
    open spec fn wf(&self) -> bool {
        self.spec_wf()
    }

    /// Every child hears the event, in order.
    open spec fn event_post(
        pre: &Self,
        ctx0: &EventCtx,
        event: &Event,
        data0: &T,
        env: &Env,
        post: &Self,
        ctx1: &EventCtx,
        data1: &T,
    ) -> bool {
        &&& post.axis == pre.axis
        &&& C::children_replaced(&pre.content, post.content.children(), &post.content)
        &&& children_turned(
            child_event_step(pre.content.children(), event, env, post.content.children()),
            pre.content.children(),
            (*ctx0, *data0),
            post.content.children(),
            (*ctx1, *data1),
        )
    }

    /// The first notice fills the set. Every child takes every notice, in
    /// order.
    open spec fn lifecycle_post(
        pre: &Self,
        ctx0: &LifeCycleCtx,
        event: &LifeCycle,
        data: &T,
        env: &Env,
        post: &Self,
        ctx1: &LifeCycleCtx,
    ) -> bool {
        exists|filled: C, first: LifeCycleCtx| #[trigger]
            Self::lifecycle_from(pre, ctx0, event, data, env, &filled, &first, post, ctx1)
    }

    /// The set is brought in line with the data; then every child has its
    /// update pass, in order.
    open spec fn update_post(
        pre: &Self,
        ctx0: &UpdateCtx,
        old_data: &T,
        data: &T,
        env: &Env,
        post: &Self,
        ctx1: &UpdateCtx,
    ) -> bool {
        exists|refreshed: C, changed: bool, first: UpdateCtx| #[trigger]
            Self::update_from(
                pre,
                ctx0,
                old_data,
                data,
                env,
                &refreshed,
                changed,
                &first,
                post,
                ctx1,
            )
    }

    /// The children are laid out one behind the other, each free to take
    /// less than the least size. The list takes the room they take
    /// together, as far as its constraints allow.
    open spec fn layout_post(
        pre: &Self,
        ctx0: &LayoutCtx,
        bc: &BoxConstraints,
        data: &T,
        env: &Env,
        post: &Self,
        ctx1: &LayoutCtx,
        size: Size,
    ) -> bool {
        exists|sizes: Seq<Size>| #[trigger]
            Self::layout_from(pre, ctx0, bc, data, env, sizes, post, ctx1, size)
    }

    /// Every child paints, in order.
    open spec fn paint_post(
        pre: &Self,
        ctx0: &PaintCtx,
        data: &T,
        env: &Env,
        post: &Self,
        ctx1: &PaintCtx,
    ) -> bool {
        &&& post.axis == pre.axis
        &&& C::children_replaced(&pre.content, post.content.children(), &post.content)
        &&& children_turned(
            child_paint_step(pre.content.children(), data, env, post.content.children()),
            pre.content.children(),
            *ctx0,
            post.content.children(),
            *ctx1,
        )
    }

    fn event(&mut self, ctx: &mut EventCtx, event: &Event, data: &mut T, env: &Env) {
        event_children(&mut self.content, ctx, event, data, env);
    }

    fn lifecycle(&mut self, ctx: &mut LifeCycleCtx, event: &LifeCycle, data: &T, env: &Env) {
        match event {
            LifeCycle::WidgetAdded => {
                self.content.content_added(data, env, &mut ctx.ids);
                ctx.children_changed();
                ctx.request_layout();
            },
            _ => {},
        }
        let ghost filled = self.content;
        let ghost first = *ctx;
        lifecycle_children(&mut self.content, ctx, event, data, env);
        proof {
            assert(Self::lifecycle_from(
                old(self),
                old(ctx),
                event,
                data,
                env,
                &filled,
                &first,
                self,
                ctx,
            ));
        }
    }

    fn update(&mut self, ctx: &mut UpdateCtx, old_data: &T, data: &T, env: &Env) {
        let changed = self.content.update(old_data, data, env, &mut ctx.ids);
        if changed {
            ctx.children_changed();
            ctx.request_layout();
        }
        let ghost refreshed = self.content;
        let ghost first = *ctx;
        update_children(&mut self.content, ctx, data, env);
        proof {
            assert(Self::update_from(
                old(self),
                old(ctx),
                old_data,
                data,
                env,
                &refreshed,
                changed,
                &first,
                self,
                ctx,
            ));
        }
    }

    fn layout(&mut self, ctx: &mut LayoutCtx, bc: &BoxConstraints, data: &T, env: &Env) -> (size:
        Size) {
        let loose = bc.loosen();
        let (major, minor, Ghost(sizes)) = layout_children(
            &mut self.content,
            ctx,
            &loose,
            self.axis,
            data,
            env,
        );
        let size = bc.constrain(self.axis.pack_size(major, minor));
        proof {
            assert(Self::layout_from(old(self), old(ctx), bc, data, env, sizes, self, ctx, size));
        }
        size
    }

    fn paint(&mut self, ctx: &mut PaintCtx, data: &T, env: &Env) {
        paint_children(&mut self.content, ctx, data, env);
    }
}

} // verus!
