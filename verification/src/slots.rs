//! Child nodes kept under keys: handing a phase to one of them, or to all
//! of them in order.

use vstd::prelude::*;
use crate::chain::{linked, threaded};
use crate::context::{Env, EventCtx, LayoutCtx, LifeCycleCtx, PaintCtx, PaintOp, UpdateCtx};
use crate::data::Data;
use crate::event::{Event, LifeCycle};
use crate::keyed::keys_of;
use crate::geometry::{BoxConstraints, Point, Rect, Size, Vec2};
use crate::widget::{Pod, PodState, Widget};

verus! {

/// Every node in the slots is well-formed.
pub open spec fn slots_wf<T: Data, W: Widget<T>>(slots: Seq<(u64, Option<Pod<T, W>>)>) -> bool {
    forall|i: int| 0 <= i < slots.len() ==> ((#[trigger] slots[i]).1 is Some ==> slots[i].1->0.wf())
}

/// What handing an event to a slot does: the node in it hears the event; an
/// empty slot changes nothing.
pub open spec fn slot_event_post<T: Data, W: Widget<T>>(
    pre: &Option<Pod<T, W>>,
    ctx0: &EventCtx,
    event: &Event,
    data0: &T,
    env: &Env,
    post: &Option<Pod<T, W>>,
    ctx1: &EventCtx,
    data1: &T,
) -> bool {
    match pre {
        Some(node) => post is Some && Pod::event_post(
            node,
            ctx0,
            event,
            data0,
            env,
            &post->0,
            ctx1,
            data1,
        ),
        None => post is None && *ctx1 == *ctx0 && *data1 == *data0,
    }
}

/// What handing a notice to a slot does.
pub open spec fn slot_lifecycle_post<T: Data, W: Widget<T>>(
    pre: &Option<Pod<T, W>>,
    ctx0: &LifeCycleCtx,
    event: &LifeCycle,
    data: &T,
    env: &Env,
    post: &Option<Pod<T, W>>,
    ctx1: &LifeCycleCtx,
) -> bool {
    match pre {
        Some(node) => post is Some && Pod::lifecycle_post(
            node,
            ctx0,
            event,
            data,
            env,
            &post->0,
            ctx1,
        ),
        None => post is None && *ctx1 == *ctx0,
    }
}

/// What running an update pass over a slot does.
pub open spec fn slot_update_post<T: Data, W: Widget<T>>(
    pre: &Option<Pod<T, W>>,
    ctx0: &UpdateCtx,
    data: &T,
    env: &Env,
    post: &Option<Pod<T, W>>,
    ctx1: &UpdateCtx,
) -> bool {
    match pre {
        Some(node) => post is Some && Pod::update_post(node, ctx0, data, env, &post->0, ctx1),
        None => post is None && *ctx1 == *ctx0,
    }
}

/// What letting a slot paint without moving the surface does.
pub open spec fn slot_paint_raw_post<T: Data, W: Widget<T>>(
    pre: &Option<Pod<T, W>>,
    ctx0: &PaintCtx,
    data: &T,
    env: &Env,
    post: &Option<Pod<T, W>>,
    ctx1: &PaintCtx,
) -> bool {
    match pre {
        Some(node) => post is Some && Pod::paint_raw_post(node, ctx0, data, env, &post->0, ctx1),
        None => post is None && *ctx1 == *ctx0,
    }
}

/// The step of a row of event turns: the slot at place `i` hears the event.
pub open spec fn event_step<T: Data, W: Widget<T>>(
    pre: Seq<(u64, Option<Pod<T, W>>)>,
    event: &Event,
    env: &Env,
    post: Seq<(u64, Option<Pod<T, W>>)>,
) -> spec_fn(int, (EventCtx, T), (EventCtx, T)) -> bool {
    |i: int, a: (EventCtx, T), b: (EventCtx, T)|
        slot_event_post(&pre[i].1, &a.0, event, &a.1, env, &post[i].1, &b.0, &b.1)
}

/// The step of a row of lifecycle turns.
pub open spec fn lifecycle_step<T: Data, W: Widget<T>>(
    pre: Seq<(u64, Option<Pod<T, W>>)>,
    event: &LifeCycle,
    data: &T,
    env: &Env,
    post: Seq<(u64, Option<Pod<T, W>>)>,
) -> spec_fn(int, LifeCycleCtx, LifeCycleCtx) -> bool {
    |i: int, a: LifeCycleCtx, b: LifeCycleCtx|
        slot_lifecycle_post(&pre[i].1, &a, event, data, env, &post[i].1, &b)
}

/// The step of a row of update turns.
pub open spec fn update_step<T: Data, W: Widget<T>>(
    pre: Seq<(u64, Option<Pod<T, W>>)>,
    data: &T,
    env: &Env,
    post: Seq<(u64, Option<Pod<T, W>>)>,
) -> spec_fn(int, UpdateCtx, UpdateCtx) -> bool {
    |i: int, a: UpdateCtx, b: UpdateCtx| slot_update_post(&pre[i].1, &a, data, env, &post[i].1, &b)
}

/// Every slot has heard the event, one after the other, each seeing the
/// context and the data as the one before left them.
pub open spec fn all_heard<T: Data, W: Widget<T>>(
    pre: Seq<(u64, Option<Pod<T, W>>)>,
    ctx0: &EventCtx,
    event: &Event,
    data0: &T,
    env: &Env,
    post: Seq<(u64, Option<Pod<T, W>>)>,
    ctx1: &EventCtx,
    data1: &T,
) -> bool {
    &&& keys_of(post) == keys_of(pre)
    &&& linked(
        event_step(pre, event, env, post),
        pre.len() as int,
        (*ctx0, *data0),
        (*ctx1, *data1),
    )
}

/// Every slot has taken the notice, one after the other.
pub open spec fn all_noted<T: Data, W: Widget<T>>(
    pre: Seq<(u64, Option<Pod<T, W>>)>,
    ctx0: &LifeCycleCtx,
    event: &LifeCycle,
    data: &T,
    env: &Env,
    post: Seq<(u64, Option<Pod<T, W>>)>,
    ctx1: &LifeCycleCtx,
) -> bool {
    &&& keys_of(post) == keys_of(pre)
    &&& linked(lifecycle_step(pre, event, data, env, post), pre.len() as int, *ctx0, *ctx1)
}

/// Every slot has had its update pass, one after the other.
pub open spec fn all_updated<T: Data, W: Widget<T>>(
    pre: Seq<(u64, Option<Pod<T, W>>)>,
    ctx0: &UpdateCtx,
    data: &T,
    env: &Env,
    post: Seq<(u64, Option<Pod<T, W>>)>,
    ctx1: &UpdateCtx,
) -> bool {
    &&& keys_of(post) == keys_of(pre)
    &&& linked(update_step(pre, data, env, post), pre.len() as int, *ctx0, *ctx1)
}

/// The slot at `idx` alone has changed, to `slot`; where there is no such
/// place, nothing has.
pub open spec fn only_changed<T, W>(
    pre: Seq<(u64, Option<Pod<T, W>>)>,
    idx: usize,
    post: Seq<(u64, Option<Pod<T, W>>)>,
) -> bool {
    if idx < pre.len() {
        post == pre.update(idx as int, (pre[idx as int].0, post[idx as int].1))
    } else {
        post == pre
    }
}

/// The node in the slot at `idx`, if the place exists and the slot is filled.
pub open spec fn spec_node_at<T, W>(slots: Seq<(u64, Option<Pod<T, W>>)>, idx: usize) -> Option<
    Pod<T, W>,
> {
    if idx < slots.len() {
        slots[idx as int].1
    } else {
        None
    }
}

/// Hands an event to every slot in order.
pub fn event_all<T: Data, W: Widget<T>>(
    slots: &mut Vec<(u64, Option<Pod<T, W>>)>,
    ctx: &mut EventCtx,
    event: &Event,
    data: &mut T,
    env: &Env,
)
    requires
        slots_wf(old(slots)@),
    ensures
        slots_wf(final(slots)@),
        all_heard(old(slots)@, old(ctx), event, old(data), env, final(slots)@, final(ctx), final(data)),
{
    let ghost pre = slots@;
    let ghost mut trail: Seq<(EventCtx, T)> = seq![(*ctx, *data)];
    let n = slots.len();
    let mut i: usize = 0;
    while i < n
        invariant
            i <= n,
            n == pre.len(),
            slots.len() == n,
            slots_wf(slots@),
            keys_of(slots@) == keys_of(pre),
            forall|p: int| i <= p < n ==> slots@[p] == pre[p],
            trail.len() == i + 1,
            trail[0] == (*old(ctx), *old(data)),
            trail[i as int] == (*ctx, *data),
            forall|p: int|
                #![trigger trail[p]]
                0 <= p < i ==> slot_event_post(
                    &pre[p].1,
                    &trail[p].0,
                    event,
                    &trail[p].1,
                    env,
                    &slots@[p].1,
                    &trail[p + 1].0,
                    &trail[p + 1].1,
                ),
        decreases n - i,
    {
        let ghost before = slots@;
        let entry = &mut slots[i];
        match &mut entry.1 {
            Some(node) => {
                node.event(ctx, event, data, env);
            },
            None => {},
        }
        proof {
            assert(slots@[i as int].0 == before[i as int].0);
            assert(forall|p: int| 0 <= p < n && p != i ==> slots@[p] == before[p]);
            assert(keys_of(slots@) =~= keys_of(before));
            trail = trail.push((*ctx, *data));
        }
        i += 1;
    }
    proof {
        let step = event_step(pre, event, env, slots@);
        assert(threaded(step, n as int, trail, (*old(ctx), *old(data)), (*ctx, *data)));
    }
}

/// Hands a notice to every slot in order.
pub fn lifecycle_all<T: Data, W: Widget<T>>(
    slots: &mut Vec<(u64, Option<Pod<T, W>>)>,
    ctx: &mut LifeCycleCtx,
    event: &LifeCycle,
    data: &T,
    env: &Env,
)
    requires
        slots_wf(old(slots)@),
    ensures
        slots_wf(final(slots)@),
        all_noted(old(slots)@, old(ctx), event, data, env, final(slots)@, final(ctx)),
{
    let ghost pre = slots@;
    let ghost mut trail: Seq<LifeCycleCtx> = seq![*ctx];
    let n = slots.len();
    let mut i: usize = 0;
    while i < n
        invariant
            i <= n,
            n == pre.len(),
            slots.len() == n,
            slots_wf(slots@),
            keys_of(slots@) == keys_of(pre),
            forall|p: int| i <= p < n ==> slots@[p] == pre[p],
            trail.len() == i + 1,
            trail[0] == *old(ctx),
            trail[i as int] == *ctx,
            forall|p: int|
                #![trigger trail[p]]
                0 <= p < i ==> slot_lifecycle_post(
                    &pre[p].1,
                    &trail[p],
                    event,
                    data,
                    env,
                    &slots@[p].1,
                    &trail[p + 1],
                ),
        decreases n - i,
    {
        let ghost before = slots@;
        let entry = &mut slots[i];
        match &mut entry.1 {
            Some(node) => {
                node.lifecycle(ctx, event, data, env);
            },
            None => {},
        }
        proof {
            assert(slots@[i as int].0 == before[i as int].0);
            assert(forall|p: int| 0 <= p < n && p != i ==> slots@[p] == before[p]);
            assert(keys_of(slots@) =~= keys_of(before));
            trail = trail.push(*ctx);
        }
        i += 1;
    }
    proof {
        let step = lifecycle_step(pre, event, data, env, slots@);
        assert(threaded(step, n as int, trail, *old(ctx), *ctx));
    }
}

/// Runs an update pass over every slot in order.
pub fn update_all<T: Data, W: Widget<T>>(
    slots: &mut Vec<(u64, Option<Pod<T, W>>)>,
    ctx: &mut UpdateCtx,
    data: &T,
    env: &Env,
)
    requires
        slots_wf(old(slots)@),
    ensures
        slots_wf(final(slots)@),
        all_updated(old(slots)@, old(ctx), data, env, final(slots)@, final(ctx)),
{
    let ghost pre = slots@;
    let ghost mut trail: Seq<UpdateCtx> = seq![*ctx];
    let n = slots.len();
    let mut i: usize = 0;
    while i < n
        invariant
            i <= n,
            n == pre.len(),
            slots.len() == n,
            slots_wf(slots@),
            keys_of(slots@) == keys_of(pre),
            forall|p: int| i <= p < n ==> slots@[p] == pre[p],
            trail.len() == i + 1,
            trail[0] == *old(ctx),
            trail[i as int] == *ctx,
            forall|p: int|
                #![trigger trail[p]]
                0 <= p < i ==> slot_update_post(
                    &pre[p].1,
                    &trail[p],
                    data,
                    env,
                    &slots@[p].1,
                    &trail[p + 1],
                ),
        decreases n - i,
    {
        let ghost before = slots@;
        let entry = &mut slots[i];
        match &mut entry.1 {
            Some(node) => {
                node.update(ctx, data, env);
            },
            None => {},
        }
        proof {
            assert(slots@[i as int].0 == before[i as int].0);
            assert(forall|p: int| 0 <= p < n && p != i ==> slots@[p] == before[p]);
            assert(keys_of(slots@) =~= keys_of(before));
            trail = trail.push(*ctx);
        }
        i += 1;
    }
    proof {
        let step = update_step(pre, data, env, slots@);
        assert(threaded(step, n as int, trail, *old(ctx), *ctx));
    }
}

/// Hands an event to the slot at `idx` alone.
pub fn event_at<T: Data, W: Widget<T>>(
    slots: &mut Vec<(u64, Option<Pod<T, W>>)>,
    idx: usize,
    ctx: &mut EventCtx,
    event: &Event,
    data: &mut T,
    env: &Env,
)
    requires
        slots_wf(old(slots)@),
    ensures
        slots_wf(final(slots)@),
        only_changed(old(slots)@, idx, final(slots)@),
        slot_event_post(
            &spec_node_at(old(slots)@, idx),
            old(ctx),
            event,
            old(data),
            env,
            &spec_node_at(final(slots)@, idx),
            final(ctx),
            final(data),
        ),
{
    if idx < slots.len() {
        let entry = &mut slots[idx];
        match &mut entry.1 {
            Some(node) => {
                node.event(ctx, event, data, env);
            },
            None => {},
        }
        assert(slots@ =~= old(slots)@.update(idx as int, (old(slots)@[idx as int].0, slots@[idx as int].1)));
    }
}

/// Hands a notice to the slot at `idx` alone.
pub fn lifecycle_at<T: Data, W: Widget<T>>(
    slots: &mut Vec<(u64, Option<Pod<T, W>>)>,
    idx: usize,
    ctx: &mut LifeCycleCtx,
    event: &LifeCycle,
    data: &T,
    env: &Env,
)
    requires
        slots_wf(old(slots)@),
    ensures
        slots_wf(final(slots)@),
        only_changed(old(slots)@, idx, final(slots)@),
        slot_lifecycle_post(
            &spec_node_at(old(slots)@, idx),
            old(ctx),
            event,
            data,
            env,
            &spec_node_at(final(slots)@, idx),
            final(ctx),
        ),
{
    if idx < slots.len() {
        let entry = &mut slots[idx];
        match &mut entry.1 {
            Some(node) => {
                node.lifecycle(ctx, event, data, env);
            },
            None => {},
        }
        assert(slots@ =~= old(slots)@.update(idx as int, (old(slots)@[idx as int].0, slots@[idx as int].1)));
    }
}

/// Lets the slot at `idx` paint without moving the surface.
pub fn paint_raw_at<T: Data, W: Widget<T>>(
    slots: &mut Vec<(u64, Option<Pod<T, W>>)>,
    idx: usize,
    ctx: &mut PaintCtx,
    data: &T,
    env: &Env,
)
    requires
        slots_wf(old(slots)@),
    ensures
        slots_wf(final(slots)@),
        only_changed(old(slots)@, idx, final(slots)@),
        slot_paint_raw_post(
            &spec_node_at(old(slots)@, idx),
            old(ctx),
            data,
            env,
            &spec_node_at(final(slots)@, idx),
            final(ctx),
        ),
{
    if idx < slots.len() {
        let entry = &mut slots[idx];
        match &mut entry.1 {
            Some(node) => {
                node.paint_raw(ctx, data, env);
            },
            None => {},
        }
        assert(slots@ =~= old(slots)@.update(idx as int, (old(slots)@[idx as int].0, slots@[idx as int].1)));
    }
}

/// One painting of a node on a moved surface, told with the surface
/// `inside` as the node found it and `mid` as the node left it.
pub open spec fn paint_moved_from<T: Data, W: Widget<T>>(
    pre: &Pod<T, W>,
    ctx0: &PaintCtx,
    by: Vec2,
    data: &T,
    env: &Env,
    inside: &PaintCtx,
    mid: &PaintCtx,
    post: &Pod<T, W>,
    ctx1: &PaintCtx,
) -> bool {
    &&& inside.frame == ctx0.frame
    &&& inside.ops@ == ctx0.ops@.push(PaintOp::Save).push(PaintOp::Translate(by))
    &&& Pod::paint_raw_post(pre, inside, data, env, post, mid)
    &&& ctx1.frame == mid.frame
    &&& ctx1.ops@ == mid.ops@.push(PaintOp::Restore)
}

/// What painting a slot on a moved surface does: between saving and
/// restoring the surface, the surface is moved by `by` and the node paints.
/// Nothing is issued for an empty slot.
pub open spec fn slot_paint_moved_post<T: Data, W: Widget<T>>(
    pre: &Option<Pod<T, W>>,
    ctx0: &PaintCtx,
    by: Vec2,
    data: &T,
    env: &Env,
    post: &Option<Pod<T, W>>,
    ctx1: &PaintCtx,
) -> bool {
    match pre {
        Some(node) => post is Some && exists|inside: PaintCtx, mid: PaintCtx| #[trigger]
            paint_moved_from(node, ctx0, by, data, env, &inside, &mid, &post->0, ctx1),
        None => post is None && *ctx1 == *ctx0,
    }
}

/// Lets the slot at `idx` paint on a surface moved by `by`.
pub fn paint_moved_at<T: Data, W: Widget<T>>(
    slots: &mut Vec<(u64, Option<Pod<T, W>>)>,
    idx: usize,
    by: Vec2,
    ctx: &mut PaintCtx,
    data: &T,
    env: &Env,
)
    requires
        slots_wf(old(slots)@),
    ensures
        slots_wf(final(slots)@),
        only_changed(old(slots)@, idx, final(slots)@),
        slot_paint_moved_post(
            &spec_node_at(old(slots)@, idx),
            old(ctx),
            by,
            data,
            env,
            &spec_node_at(final(slots)@, idx),
            final(ctx),
        ),
{
    if idx < slots.len() {
        let ghost mut inside = *ctx;
        let ghost mut mid = *ctx;
        let entry = &mut slots[idx];
        match &mut entry.1 {
            Some(node) => {
                ctx.save();
                ctx.translate(by);
                proof {
                    inside = *ctx;
                }
                node.paint_raw(ctx, data, env);
                proof {
                    mid = *ctx;
                }
                ctx.restore();
            },
            None => {},
        }
        assert(slots@ =~= old(slots)@.update(idx as int, (old(slots)@[idx as int].0, slots@[idx as int].1)));
        proof {
            if old(slots)@[idx as int].1 is Some {
                assert(paint_moved_from(
                    &old(slots)@[idx as int].1->0,
                    old(ctx),
                    by,
                    data,
                    env,
                    &inside,
                    &mid,
                    &slots@[idx as int].1->0,
                    ctx,
                ));
            }
        }
    }
}

/// The rectangle of a node once it has been laid out with the answer
/// `size`: a node that has joined the tree has taken the size.
pub open spec fn spec_laid_rect<T, W>(node: &Pod<T, W>, size: Size) -> Rect {
    if node.state.added {
        node.state.layout_rect.spec_with_size(size)
    } else {
        node.state.layout_rect
    }
}

/// What laying out a slot and placing it at the origin does: the node is
/// laid out within the constraints and its rectangle is the size it took,
/// at the origin. For an empty slot the answer is `None`.
pub open spec fn slot_layout_post<T: Data, W: Widget<T>>(
    pre: &Option<Pod<T, W>>,
    ctx0: &LayoutCtx,
    bc: &BoxConstraints,
    data: &T,
    env: &Env,
    post: &Option<Pod<T, W>>,
    ctx1: &LayoutCtx,
    size: Option<Size>,
) -> bool {
    match pre {
        Some(node) => {
            &&& post is Some
            &&& size is Some
            &&& Pod::layout_post(
                node,
                ctx0,
                bc,
                data,
                env,
                &(Pod {
                    state: PodState { layout_rect: spec_laid_rect(node, size->0), ..post->0.state },
                    ..post->0
                }),
                ctx1,
                size->0,
            )
            &&& post->0.state.layout_rect == Rect::spec_from_origin_size(
                Point { x: 0, y: 0 },
                size->0,
            )
        },
        None => post is None && *ctx1 == *ctx0 && size is None,
    }
}

/// Lays out the slot at `idx` and places it at the origin.
pub fn layout_at<T: Data, W: Widget<T>>(
    slots: &mut Vec<(u64, Option<Pod<T, W>>)>,
    idx: usize,
    ctx: &mut LayoutCtx,
    bc: &BoxConstraints,
    data: &T,
    env: &Env,
) -> (size: Option<Size>)
    requires
        slots_wf(old(slots)@),
    ensures
        slots_wf(final(slots)@),
        only_changed(old(slots)@, idx, final(slots)@),
        size is Some && bc.wf() ==> bc.spec_contains(size->0),
        slot_layout_post(
            &spec_node_at(old(slots)@, idx),
            old(ctx),
            bc,
            data,
            env,
            &spec_node_at(final(slots)@, idx),
            final(ctx),
            size,
        ),
{
    if idx < slots.len() {
        let entry = &mut slots[idx];
        let size = match &mut entry.1 {
            Some(node) => {
                let size = node.layout(ctx, bc, data, env);
                let ghost laid = *node;
                node.set_layout_rect(Rect::from_origin_size(Point::zero(), size));
                proof {
                    assert(laid == (Pod {
                        state: PodState {
                            layout_rect: spec_laid_rect(&old(slots)@[idx as int].1->0, size),
                            ..node.state
                        },
                        ..*node
                    }));
                }
                Some(size)
            },
            None => None,
        };
        assert(slots@ =~= old(slots)@.update(idx as int, (old(slots)@[idx as int].0, slots@[idx as int].1)));
        size
    } else {
        None
    }
}

} // verus!
