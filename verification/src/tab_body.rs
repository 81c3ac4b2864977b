//! The body of a tab container: one node for each tab, of which the
//! selected one is shown, and the slide from one tab to the next.

use vstd::prelude::*;
use crate::context::{
    Env, EventCtx, LayoutCtx, LifeCycleCtx, PaintCtx, PaintOp, Requests, UpdateCtx,
};

use crate::event::{Event, IdSource, LifeCycle, WidgetId};
use crate::geometry::{sat_sub, saturate, Axis, BoxConstraints, Size, Vec2};
use crate::keyed::{distinct, first_seen, has_key, kept_places, keys_of, reconcile, slot_of};
use crate::slots::{
    all_heard, all_noted, all_updated, event_all, event_at, layout_at, lifecycle_all,
    lifecycle_at, only_changed, paint_moved_at, paint_raw_at, slot_event_post, slot_layout_post,
    slot_lifecycle_post, slot_paint_moved_post, slot_paint_raw_post, slots_wf, spec_node_at,
    update_all,
};
use crate::tab_policy::{TabsFromData, TabsState};
use crate::widget::{Pod, PodState, Widget};

verus! {

/// The length of a slide from one tab to the next, in nanoseconds.
pub const TRANSITION_NANOS: u64 = 250_000_000;

/// A slide from the tab that was selected to the one that is.
#[derive(Clone, Copy, Debug, PartialEq, Eq, Structural)]
pub struct TabsTransition {
    pub previous_idx: usize,
    pub current_time: u64,
    pub length: u64,
    pub increasing: bool,
}

impl TabsTransition {
    /// A slide at its start.
    pub fn new(previous_idx: usize, length: u64, increasing: bool) -> (r: Self)
        ensures
            r == (TabsTransition { previous_idx, current_time: 0, length, increasing }),
    {
        TabsTransition { previous_idx, current_time: 0, length, increasing }
    }

    pub open spec fn spec_live(self) -> bool {
        self.current_time < self.length
    }

    /// Whether the slide is still under way.
    pub fn live(&self) -> (r: bool)
        ensures
            r == self.spec_live(),
    {
        self.current_time < self.length
    }

    /// The slide after `interval` more nanoseconds.
    pub open spec fn spec_advanced(self, interval: u64) -> TabsTransition {
        TabsTransition {
            current_time: if self.current_time + interval > u64::MAX {
                u64::MAX
            } else {
                (self.current_time + interval) as u64
            },
            ..self
        }
    }

    pub fn advanced(self, interval: u64) -> (r: TabsTransition)
        ensures
            r == self.spec_advanced(interval),
    {
        let time = if interval > u64::MAX - self.current_time {
            u64::MAX
        } else {
            self.current_time + interval
        };
        TabsTransition { current_time: time, ..self }
    }

    /// How far the bodies have moved along an extent of `main`: the part of
    /// `main` that the time passed is of the length of the slide, rounded
    /// down. A slide past its end has moved all the way.
    pub open spec fn spec_progress(self, main: i64) -> i64 {
        let extent: int = if main < 0 {
            0
        } else {
            main as int
        };
        if self.current_time >= self.length {
            extent as i64
        } else {
            ((extent * self.current_time) / (self.length as int)) as i64
        }
    }

    pub fn progress(&self, main: i64) -> (r: i64)
        ensures
            r == self.spec_progress(main),
            0 <= r,
            main >= 0 ==> r <= main,
    {
        let extent: u64 = if main < 0 {
            0
        } else {
            main as u64
        };
        if self.current_time >= self.length {
            return extent as i64;
        }
        let time = self.current_time;
        let length = self.length;
        assert(extent * time <= extent * length) by (nonlinear_arith)
            requires
                time <= length,
                extent >= 0,
        ;
        assert(extent * length <= 0x7fff_ffff_ffff_ffff * 0xffff_ffff_ffff_ffff) by (nonlinear_arith)
            requires
                extent <= 0x7fff_ffff_ffff_ffff,
                length <= 0xffff_ffff_ffff_ffff,
                extent >= 0,
                length >= 0,
        ;
        let product: u128 = (extent as u128) * (time as u128);
        let part: u128 = product / (length as u128);
        assert(part <= extent) by (nonlinear_arith)
            requires
                part == (extent * time) / (length as int),
                extent * time <= extent * length,
                length > 0,
                extent >= 0,
        ;
        part as i64
    }

    /// How far the body of the tab that was selected is moved: out of view,
    /// against the direction in which the place of the selected tab changed.
    pub open spec fn spec_previous_transform(self, axis: Axis, main: i64) -> Vec2 {
        let along = if self.increasing {
            saturate(0 - self.spec_progress(main))
        } else {
            self.spec_progress(main)
        };
        Vec2 { x: axis.spec_pack(along, 0).0, y: axis.spec_pack(along, 0).1 }
    }

    pub fn previous_transform(&self, axis: Axis, main: i64) -> (r: Vec2)
        ensures
            r == self.spec_previous_transform(axis, main),
    {
        let moved = self.progress(main);
        let along = if self.increasing {
            sat_sub(0, moved)
        } else {
            moved
        };
        let (x, y) = axis.pack(along, 0);
        Vec2 { x, y }
    }

    /// How far the body of the selected tab is moved: into view, from the
    /// side towards which the place of the selected tab changed.
    pub open spec fn spec_selected_transform(self, axis: Axis, main: i64) -> Vec2 {
        let left = saturate((if main < 0 {
            0
        } else {
            main as int
        }) - self.spec_progress(main));
        let along = if self.increasing {
            left
        } else {
            saturate(0 - left)
        };
        Vec2 { x: axis.spec_pack(along, 0).0, y: axis.spec_pack(along, 0).1 }
    }

    pub fn selected_transform(&self, axis: Axis, main: i64) -> (r: Vec2)
        ensures
            r == self.spec_selected_transform(axis, main),
    {
        let extent = if main < 0 {
            0
        } else {
            main
        };
        let left = sat_sub(extent, self.progress(main));
        let along = if self.increasing {
            left
        } else {
            sat_sub(0, left)
        };
        let (x, y) = axis.pack(along, 0);
        Vec2 { x, y }
    }
}

pub open spec fn spec_hidden_should_receive_event(evt: &Event) -> bool {
    match evt {
        Event::WindowConnected
        | Event::WindowSize(_)
        | Event::Timer(_)
        | Event::Command(_)
        | Event::Internal(_) => true,
        Event::MouseDown(_)
        | Event::MouseUp(_)
        | Event::MouseMove(_)
        | Event::Wheel(_)
        | Event::KeyDown(_)
        | Event::KeyUp(_)
        | Event::Paste(_)
        | Event::Zoom(_) => false,
    }
}

/// Whether the body of a tab that is not selected hears the event. Commands,
/// timers and what concerns the window reach every tab; input reaches the
/// selected tab alone.
pub fn hidden_should_receive_event(evt: &Event) -> (r: bool)
    ensures
        r == spec_hidden_should_receive_event(evt),
{
    match evt {
        Event::WindowConnected
        | Event::WindowSize(_)
        | Event::Timer(_)
        | Event::Command(_)
        | Event::Internal(_) => true,
        Event::MouseDown(_)
        | Event::MouseUp(_)
        | Event::MouseMove(_)
        | Event::Wheel(_)
        | Event::KeyDown(_)
        | Event::KeyUp(_)
        | Event::Paste(_)
        | Event::Zoom(_) => false,
    }
}

pub open spec fn spec_hidden_should_receive_lifecycle(lc: &LifeCycle) -> bool {
    match lc {
        LifeCycle::WidgetAdded | LifeCycle::Internal(_) => true,
        LifeCycle::Size(_)
        | LifeCycle::AnimFrame(_)
        | LifeCycle::HotChanged(_)
        | LifeCycle::FocusChanged(_) => false,
    }
}

/// Whether the body of a tab that is not selected takes the notice.
pub fn hidden_should_receive_lifecycle(lc: &LifeCycle) -> (r: bool)
    ensures
        r == spec_hidden_should_receive_lifecycle(lc),
{
    match lc {
        LifeCycle::WidgetAdded | LifeCycle::Internal(_) => true,
        LifeCycle::Size(_)
        | LifeCycle::AnimFrame(_)
        | LifeCycle::HotChanged(_)
        | LifeCycle::FocusChanged(_) => false,
    }
}

/// What fills the slot of a tab that is new.
pub trait TabContentMaker<TFD: TabsFromData, C> {
    /// What `make` may return, and what it does to the source of identities.
    spec fn made(
        &self,
        tfd: &TFD,
        key: u64,
        idx: usize,
        data: &TFD::T,
        ids0: &IdSource,
        slot: Option<C>,
        ids1: &IdSource,
    ) -> bool;

    /// The invariant of what is made.
    spec fn content_wf(content: &C) -> bool;

    fn make(&self, tfd: &TFD, key: u64, idx: usize, data: &TFD::T, ids: &mut IdSource) -> (r:
        Option<C>)
        ensures
            self.made(tfd, key, idx, data, old(ids), r, final(ids)),
            r is Some ==> Self::content_wf(&r->0),
            old(ids).next <= final(ids).next,
    ;
}

/// The slot was made in a round that took the identities from `ids0` up to
/// `ids1`.
pub open spec fn made_within<TFD: TabsFromData, C, M: TabContentMaker<TFD, C>>(
    maker: &M,
    tfd: &TFD,
    key: u64,
    idx: usize,
    data: &TFD::T,
    ids0: &IdSource,
    slot: Option<C>,
    ids1: &IdSource,
) -> bool {
    exists|a: IdSource, b: IdSource|
        {
            &&& ids0.next <= a.next <= b.next <= ids1.next
            &&& #[trigger] maker.made(tfd, key, idx, data, &a, slot, &b)
        }
}

/// What bringing the slots in line with a set of tabs makes of them: there
/// is one slot for each key of the set, in order; a key that was there
/// keeps what its slot held; the slot of a new key holds what was made
/// for the key. `existing` lists the places of the keys that were there.
pub open spec fn ensured<TFD: TabsFromData, C, M: TabContentMaker<TFD, C>>(
    pre: Seq<(u64, Option<C>)>,
    tfd: &TFD,
    tab_set: u64,
    data: &TFD::T,
    maker: &M,
    ids0: &IdSource,
    post: Seq<(u64, Option<C>)>,
    ids1: &IdSource,
    existing: Seq<usize>,
) -> bool {
    let keys = tfd.keys_spec(tab_set, data);
    &&& keys_of(post) == first_seen(keys, keys.len() as int)
    &&& distinct(keys_of(post))
    &&& forall|i: int|
        0 <= i < post.len() ==> if has_key(pre, (#[trigger] post[i]).0) {
            post[i].1 == slot_of(pre, post[i].0)
        } else {
            made_within(maker, tfd, post[i].0, i as usize, data, ids0, post[i].1, ids1)
        }
    &&& existing == kept_places(pre, keys_of(post), post.len() as int)
    &&& ids0.next <= ids1.next
}

/// Two rows of slots that are brought in line with the same set of tabs
/// have the same keys in the same order: the labels of the bar and the
/// bodies never fall out of step.
pub proof fn lemma_same_tabs_same_keys<
    TFD: TabsFromData,
    C1,
    M1: TabContentMaker<TFD, C1>,
    C2,
    M2: TabContentMaker<TFD, C2>,
>(
    tfd: &TFD,
    tab_set: u64,
    data: &TFD::T,
    pre1: Seq<(u64, Option<C1>)>,
    maker1: &M1,
    ids1: &IdSource,
    post1: Seq<(u64, Option<C1>)>,
    ids2: &IdSource,
    existing1: Seq<usize>,
    pre2: Seq<(u64, Option<C2>)>,
    maker2: &M2,
    ids3: &IdSource,
    post2: Seq<(u64, Option<C2>)>,
    ids4: &IdSource,
    existing2: Seq<usize>,
)
    requires
        ensured(pre1, tfd, tab_set, data, maker1, ids1, post1, ids2, existing1),
        ensured(pre2, tfd, tab_set, data, maker2, ids3, post2, ids4, existing2),
    ensures
        keys_of(post1) == keys_of(post2),
{
}

/// Every filled slot holds something well-formed.
pub open spec fn contents_wf<TFD: TabsFromData, C, M: TabContentMaker<TFD, C>>(
    slots: Seq<(u64, Option<C>)>,
) -> bool {
    forall|i: int| 0 <= i < slots.len() ==> ((#[trigger] slots[i]).1 is Some ==> M::content_wf(&slots[i].1->0))
}

/// Among distinct keys, what a filled slot holds is well-formed where
/// everything the slots hold is.
pub proof fn lemma_slot_of_wf<TFD: TabsFromData, C, M: TabContentMaker<TFD, C>>(
    slots: Seq<(u64, Option<C>)>,
    key: u64,
)
    requires
        contents_wf::<TFD, C, M>(slots),
    ensures
        slot_of(slots, key) is Some ==> M::content_wf(&slot_of(slots, key)->0),
{
    if has_key(slots, key) {
        let j = crate::keyed::position(slots, key);
        assert(0 <= j < slots.len() && slots[j].0 == key);
    }
}

/// Brings the slots in line with the tabs of `tab_set`: slots of keys that
/// stay are kept as they are, slots of keys that are gone are dropped, and
/// the slots of new keys are filled by `maker`. The answer lists the places
/// of the slots that were kept.
pub fn ensure_for_tabs<TFD: TabsFromData, C, M: TabContentMaker<TFD, C>>(
    contents: &mut Vec<(u64, Option<C>)>,
    tfd: &TFD,
    tab_set: u64,
    data: &TFD::T,
    maker: &M,
    ids: &mut IdSource,
) -> (existing_idx: Vec<usize>)
    requires
        distinct(keys_of(old(contents)@)),
        contents_wf::<TFD, C, M>(old(contents)@),
    ensures
        contents_wf::<TFD, C, M>(final(contents)@),
        ensured(
            old(contents)@,
            tfd,
            tab_set,
            data,
            maker,
            old(ids),
            final(contents)@,
            final(ids),
            existing_idx@,
        ),
{
    let keys = tfd.keys_from_set(tab_set, data);
    let mut held: Vec<(u64, Option<C>)> = Vec::new();
    std::mem::swap(contents, &mut held);
    let ghost pre = held@;
    let (mut slots, existing_idx, had) = reconcile(held, &keys);
    let ghost laid = slots@;
    let mut i: usize = 0;
    while i < slots.len()
        invariant
            i <= slots.len(),
            slots.len() == laid.len(),
            had.len() == laid.len(),
            pre == old(contents)@,
            contents_wf::<TFD, C, M>(pre),
            keys_of(slots@) == keys_of(laid),
            forall|p: int| 0 <= p < laid.len() ==> #[trigger] had[p] == has_key(pre, laid[p].0),
            forall|p: int| 0 <= p < laid.len() ==> (#[trigger] laid[p]).1 == slot_of(pre, laid[p].0),
            forall|p: int| i <= p < slots.len() ==> #[trigger] slots[p] == laid[p],
            old(ids).next <= ids.next,
            forall|p: int|
                0 <= p < i ==> {
                    &&& ((#[trigger] slots[p]).1 is Some ==> M::content_wf(&slots[p].1->0))
                    &&& if has_key(pre, slots[p].0) {
                        slots[p].1 == slot_of(pre, slots[p].0)
                    } else {
                        made_within(maker, tfd, slots[p].0, p as usize, data, old(ids), slots[p].1, ids)
                    }
                },
        decreases slots.len() - i,
    {
        let key = slots[i].0;
        let ghost was = slots@;
        let ghost ids_then = *ids;
        proof {
            assert(slots[i as int] == laid[i as int]);
            lemma_slot_of_wf::<TFD, C, M>(pre, key);
        }
        if !had[i] {
            let ghost before = *ids;
            let made = maker.make(tfd, key, i, data, ids);
            slots.set(i, (key, made));
            proof {
                assert(keys_of(slots@) =~= keys_of(was));
                assert(maker.made(tfd, key, i, data, &before, made, ids));
            }
        }
        proof {
            assert forall|p: int| 0 <= p < i implies {
                &&& ((#[trigger] slots[p]).1 is Some ==> M::content_wf(&slots[p].1->0))
                &&& if has_key(pre, slots[p].0) {
                    slots[p].1 == slot_of(pre, slots[p].0)
                } else {
                    made_within(maker, tfd, slots[p].0, p as usize, data, old(ids), slots[p].1, ids)
                }
            } by {
                assert(slots[p] == was[p]);
                if !has_key(pre, was[p].0) {
                    let (a, b) = choose|a: IdSource, b: IdSource|
                        {
                            &&& old(ids).next <= a.next <= b.next <= ids_then.next
                            &&& #[trigger] maker.made(tfd, was[p].0, p as usize, data, &a, was[p].1, &b)
                        };
                    assert(maker.made(tfd, slots[p].0, p as usize, data, &a, slots[p].1, &b));
                }
            }
        }
        i += 1;
    }
    *contents = slots;
    existing_idx
}

/// Makes the body of a new tab: a node around the widget that the policy
/// makes for the key, or nothing where the policy makes none.
pub struct BodyMaker;

impl<TFD: TabsFromData> TabContentMaker<TFD, Pod<TFD::T, TFD::BodyWidget>> for BodyMaker {
    open spec fn made(
        &self,
        tfd: &TFD,
        key: u64,
        idx: usize,
        data: &TFD::T,
        ids0: &IdSource,
        slot: Option<Pod<TFD::T, TFD::BodyWidget>>,
        ids1: &IdSource,
    ) -> bool {
        match slot {
            Some(node) => {
                &&& tfd.body_post(key, data, Some(node.inner))
                &&& node.state == PodState::spec_initial(WidgetId(ids0.next))
                &&& node.old_data is None
                &&& ids1.next == IdSource::after_draw(ids0.next)
            },
            None => tfd.body_post(key, data, None) && *ids1 == *ids0,
        }
    }

    open spec fn content_wf(content: &Pod<TFD::T, TFD::BodyWidget>) -> bool {
        content.wf()
    }

    fn make(&self, tfd: &TFD, key: u64, idx: usize, data: &TFD::T, ids: &mut IdSource) -> (r:
        Option<Pod<TFD::T, TFD::BodyWidget>>) {
        match tfd.body_from_key(key, data) {
            Some(body) => Some(Pod::new(ids, body)),
            None => None,
        }
    }
}

/// The bodies of the tabs: one slot for each key, in the order of the tabs.
/// A slot is empty where no body could be made for its tab.
pub struct TabsBody<TFD: TabsFromData> {
    pub children: Vec<(u64, Option<Pod<TFD::T, TFD::BodyWidget>>)>,
    pub transition: Option<TabsTransition>,
    pub axis: Axis,
}

impl<TFD: TabsFromData> TabsBody<TFD> {
    /// A body without tabs; the first notice fills it.
    pub fn new(axis: Axis) -> (r: Self)
        ensures
            r.spec_wf(),
            r.children@ == Seq::<(u64, Option<Pod<TFD::T, TFD::BodyWidget>>)>::empty(),
            r.transition is None,
            r.axis == axis,
    {
        let r = TabsBody { children: Vec::new(), transition: None, axis };
        assert(keys_of(r.children@) =~= Seq::<u64>::empty());
        r
    }

    /// No key occurs twice, and every body is well-formed.
    pub open spec fn spec_wf(&self) -> bool {
        distinct(keys_of(self.children@)) && slots_wf(self.children@)
    }

    /// A body that starts with the given bodies, each under the key of its
    /// tab: for tabs whose bodies were given when the container was built.
    pub fn with_bodies(ids: &mut IdSource, axis: Axis, bodies: Vec<(u64, TFD::BodyWidget)>) -> (r:
        Self)
        requires
            distinct(keys_of(bodies@)),
            forall|i: int| 0 <= i < bodies@.len() ==> (#[trigger] bodies@[i]).1.wf(),
        ensures
            r.spec_wf(),
            r.transition is None,
            r.axis == axis,
            keys_of(r.children@) == keys_of(bodies@),
            old(ids).next <= final(ids).next,
            forall|i: int|
                0 <= i < bodies@.len() ==> {
                    let slot = (#[trigger] r.children@[i]).1;
                    &&& slot is Some
                    &&& slot->0.inner == bodies@[i].1
                    &&& slot->0.old_data is None
                    &&& slot->0.state == PodState::spec_initial(slot->0.state.id)
                    &&& old(ids).next <= slot->0.state.id.0 <= final(ids).next
                },
    {
        let ghost all = bodies@;
        let mut rest = bodies;
        let mut children: Vec<(u64, Option<Pod<TFD::T, TFD::BodyWidget>>)> = Vec::new();
        while rest.len() > 0
            invariant
                children.len() + rest.len() == all.len(),
                rest@ == all.skip(children.len() as int),
                forall|i: int| 0 <= i < all.len() ==> (#[trigger] all[i]).1.wf(),
                keys_of(children@) == keys_of(all.take(children.len() as int)),
                slots_wf(children@),
                old(ids).next <= ids.next,
                forall|i: int|
                    0 <= i < children.len() ==> {
                        let slot = (#[trigger] children@[i]).1;
                        &&& slot is Some
                        &&& slot->0.inner == all[i].1
                        &&& slot->0.old_data is None
                        &&& slot->0.state == PodState::spec_initial(slot->0.state.id)
                        &&& old(ids).next <= slot->0.state.id.0 <= ids.next
                    },
            decreases rest.len(),
        {
            let ghost done = children.len() as int;
            let (key, body) = rest.remove(0);
            assert((key, body) == all[done]);
            assert(rest@ =~= all.skip(done + 1));
            let node = Pod::new(ids, body);
            let ghost prev = children@;
            children.push((key, Some(node)));
            assert(keys_of(children@) =~= keys_of(prev).push(key));
            assert(keys_of(all.take(done + 1)) =~= keys_of(all.take(done)).push(all[done].0));
        }
        assert(all.take(all.len() as int) =~= all);
        TabsBody { children, transition: None, axis }
    }

    /// What `make_tabs` makes of the slots.
    pub open spec fn tabs_made(
        pre: Seq<(u64, Option<Pod<TFD::T, TFD::BodyWidget>>)>,
        data: &TabsState<TFD>,
        tab_set: u64,
        ids0: &IdSource,
        post: Seq<(u64, Option<Pod<TFD::T, TFD::BodyWidget>>)>,
        ids1: &IdSource,
        existing: Seq<usize>,
    ) -> bool {
        ensured(
            pre,
            &data.tabs_from_data,
            tab_set,
            &data.inner,
            &BodyMaker,
            ids0,
            post,
            ids1,
            existing,
        )
    }

    /// Brings the slots in line with the tabs of `tab_set`. The answer lists
    /// the places of the slots that were there before.
    pub fn make_tabs(&mut self, data: &TabsState<TFD>, tab_set: u64, ids: &mut IdSource) -> (existing:
        Vec<usize>)
        requires
            old(self).spec_wf(),
        ensures
            final(self).spec_wf(),
            final(self).transition == old(self).transition,
            final(self).axis == old(self).axis,
            Self::tabs_made(
                old(self).children@,
                data,
                tab_set,
                old(ids),
                final(self).children@,
                final(ids),
                existing@,
            ),
    {
        ensure_for_tabs(
            &mut self.children,
            &data.tabs_from_data,
            tab_set,
            &data.inner,
            &BodyMaker,
            ids,
        )
    }

    /// The body at `idx`, if there is such a tab and it has a body.
    pub fn child(
        children: &mut Vec<(u64, Option<Pod<TFD::T, TFD::BodyWidget>>)>,
        idx: usize,
    ) -> (r: Option<&mut Pod<TFD::T, TFD::BodyWidget>>)
        ensures
            r is Some ==> spec_node_at(old(children)@, idx) == Some(*r->0) && final(children)@
                == old(children)@.update(
                idx as int,
                (old(children)@[idx as int].0, Some(*final(r->0))),
            ),
            r is None ==> spec_node_at(old(children)@, idx) is None && final(children)@
                == old(children)@,
    {
        if idx < children.len() {
            let entry = &mut children[idx];
            match &mut entry.1 {
                Some(node) => Some(node),
                None => None,
            }
        } else {
            None
        }
    }

    /// The body of the selected tab.
    pub fn active_child(&mut self, state: &TabsState<TFD>) -> (r: Option<
        &mut Pod<TFD::T, TFD::BodyWidget>,
    >)
        ensures
            final(self).transition == old(self).transition,
            final(self).axis == old(self).axis,
            r is Some ==> spec_node_at(old(self).children@, state.selected) == Some(*r->0)
                && final(self).children@ == old(self).children@.update(
                state.selected as int,
                (old(self).children@[state.selected as int].0, Some(*final(r->0))),
            ),
            r is None ==> spec_node_at(old(self).children@, state.selected) is None
                && final(self).children@ == old(self).children@,
    {
        Self::child(&mut self.children, state.selected)
    }

    /// The context once the tabs have been made anew: the parent is told
    /// that the children changed, and layout is asked for.
    pub open spec fn spec_remade_requests(requests: Requests) -> Requests {
        Requests { children_changed: true, layout: true, ..requests }
    }

    /// The slide and the requests after a notice: a frame moves a slide on,
    /// and a slide that is still under way asks for the next frame; one
    /// that has reached its end is dropped.
    pub open spec fn spec_ticked(
        transition: Option<TabsTransition>,
        event: &LifeCycle,
        requests: Requests,
    ) -> (Option<TabsTransition>, Requests) {
        match (transition, *event) {
            (Some(slide), LifeCycle::AnimFrame(interval)) => {
                let moved = slide.spec_advanced(interval);
                if moved.spec_live() {
                    (Some(moved), Requests { anim_frame: true, ..requests })
                } else {
                    (None, requests)
                }
            },
            _ => (transition, requests),
        }
    }

    /// The slide and the requests after an update: a change of the selected
    /// place starts a slide from the place that was selected, and asks for
    /// layout and for a frame.
    pub open spec fn spec_slid(
        transition: Option<TabsTransition>,
        old_selected: usize,
        selected: usize,
        requests: Requests,
    ) -> (Option<TabsTransition>, Requests) {
        if old_selected != selected {
            (
                Some(
                    TabsTransition {
                        previous_idx: old_selected,
                        current_time: 0,
                        length: TRANSITION_NANOS,
                        increasing: old_selected < selected,
                    },
                ),
                Requests { layout: true, anim_frame: true, ..requests },
            )
        } else {
            (transition, requests)
        }
    }

    /// One lifecycle phase, told with the slots `made` and the context
    /// `first` as the first notice left them, and the context `mid` as the
    /// bodies left it.
    pub open spec fn lifecycle_from(
        pre: &Self,
        ctx0: &LifeCycleCtx,
        event: &LifeCycle,
        data: &TabsState<TFD>,
        env: &Env,
        made: Seq<(u64, Option<Pod<TFD::T, TFD::BodyWidget>>)>,
        existing: Seq<usize>,
        first: &LifeCycleCtx,
        mid: &LifeCycleCtx,
        post: &Self,
        ctx1: &LifeCycleCtx,
    ) -> bool {
        &&& post.axis == pre.axis
        &&& if *event == LifeCycle::WidgetAdded {
            &&& Self::tabs_made(
                pre.children@,
                data,
                data.tabs_from_data.tabs_spec(&data.inner),
                &ctx0.ids,
                made,
                &first.ids,
                existing,
            )
            &&& *first == (LifeCycleCtx {
                ids: first.ids,
                requests: Self::spec_remade_requests(ctx0.requests),
                ..*ctx0
            })
        } else {
            made == pre.children@ && *first == *ctx0
        }
        &&& if spec_hidden_should_receive_lifecycle(event) {
            all_noted(made, first, event, &data.inner, env, post.children@, mid)
        } else {
            &&& only_changed(made, data.selected, post.children@)
            &&& slot_lifecycle_post(
                &spec_node_at(made, data.selected),
                first,
                event,
                &data.inner,
                env,
                &spec_node_at(post.children@, data.selected),
                mid,
            )
        }
        &&& post.transition == Self::spec_ticked(pre.transition, event, mid.requests).0
        &&& *ctx1 == (LifeCycleCtx {
            requests: Self::spec_ticked(pre.transition, event, mid.requests).1,
            ..*mid
        })
    }

    /// One update phase, told with the slots `made` and the context `first`
    /// as the change of tabs left them.
    pub open spec fn update_from(
        pre: &Self,
        ctx0: &UpdateCtx,
        old_data: &TabsState<TFD>,
        data: &TabsState<TFD>,
        env: &Env,
        made: Seq<(u64, Option<Pod<TFD::T, TFD::BodyWidget>>)>,
        existing: Seq<usize>,
        first: &UpdateCtx,
        post: &Self,
        ctx1: &UpdateCtx,
    ) -> bool {
        let slid = Self::spec_slid(pre.transition, old_data.selected, data.selected, first.requests);
        &&& post.axis == pre.axis
        &&& match data.tabs_from_data.changed_spec(&old_data.inner, &data.inner) {
            Some(tab_set) => {
                &&& Self::tabs_made(
                    pre.children@,
                    data,
                    tab_set,
                    &ctx0.ids,
                    made,
                    &first.ids,
                    existing,
                )
                &&& *first == (UpdateCtx {
                    ids: first.ids,
                    requests: Self::spec_remade_requests(ctx0.requests),
                    ..*ctx0
                })
            },
            None => made == pre.children@ && *first == *ctx0,
        }
        &&& post.transition == slid.0
        &&& all_updated(
            made,
            &(UpdateCtx { requests: slid.1, ..*first }),
            &data.inner,
            env,
            post.children@,
            ctx1,
        )
    }

    /// One paint phase during a slide, told with the surface `clipped` after
    /// the clip, and the slots `between` and the surface `mid` after the body
    /// of the tab that was selected has painted.
    pub open spec fn slide_painted(
        pre: &Self,
        slide: TabsTransition,
        ctx0: &PaintCtx,
        data: &TabsState<TFD>,
        env: &Env,
        clipped: &PaintCtx,
        between: Seq<(u64, Option<Pod<TFD::T, TFD::BodyWidget>>)>,
        mid: &PaintCtx,
        post: &Self,
        ctx1: &PaintCtx,
    ) -> bool {
        let main = pre.axis.spec_major(ctx0.frame.size);
        &&& clipped.frame == ctx0.frame
        &&& clipped.ops@ == ctx0.ops@.push(PaintOp::Clip(ctx0.frame.size.spec_to_rect()))
        &&& only_changed(pre.children@, slide.previous_idx, between)
        &&& slot_paint_moved_post(
            &spec_node_at(pre.children@, slide.previous_idx),
            clipped,
            slide.spec_previous_transform(pre.axis, main),
            &data.inner,
            env,
            &spec_node_at(between, slide.previous_idx),
            mid,
        )
        &&& only_changed(between, data.selected, post.children@)
        &&& slot_paint_moved_post(
            &spec_node_at(between, data.selected),
            mid,
            slide.spec_selected_transform(pre.axis, main),
            &data.inner,
            env,
            &spec_node_at(post.children@, data.selected),
            ctx1,
        )
    }
}

impl<TFD: TabsFromData> TabsBody<TFD> {
    /// What painting the tab at `idx` outside a slide does: its body paints.
    /// A tab for which no body could be built shows a stand-in instead: a
    /// tab without body is a fault of the policy, not of the user. Where
    /// there is no tab at `idx`, nothing paints.
    pub open spec fn shown_painted(
        pre: Seq<(u64, Option<Pod<TFD::T, TFD::BodyWidget>>)>,
        idx: usize,
        ctx0: &PaintCtx,
        data: &TFD::T,
        env: &Env,
        post: Seq<(u64, Option<Pod<TFD::T, TFD::BodyWidget>>)>,
        ctx1: &PaintCtx,
    ) -> bool {
        &&& only_changed(pre, idx, post)
        &&& if idx < pre.len() && pre[idx as int].1 is None {
            &&& post == pre
            &&& ctx1.frame == ctx0.frame
            &&& ctx1.ops@ == ctx0.ops@.push(PaintOp::MissingTab { key: pre[idx as int].0 })
        } else {
            slot_paint_raw_post(
                &spec_node_at(pre, idx),
                ctx0,
                data,
                env,
                &spec_node_at(post, idx),
                ctx1,
            )
        }
    }

    fn paint_shown(
        children: &mut Vec<(u64, Option<Pod<TFD::T, TFD::BodyWidget>>)>,
        idx: usize,
        ctx: &mut PaintCtx,
        data: &TFD::T,
        env: &Env,
    )
        requires
            slots_wf(old(children)@),
        ensures
            slots_wf(final(children)@),
            Self::shown_painted(old(children)@, idx, old(ctx), data, env, final(children)@, final(ctx)),
    {
        let missing = if idx < children.len() {
            match &children[idx].1 {
                Some(_) => None,
                None => Some(children[idx].0),
            }
        } else {
            None
        };
        match missing {
            Some(key) => {
                ctx.emit(PaintOp::MissingTab { key });
                assert(children@ =~= children@.update(idx as int, children@[idx as int]));
            },
            None => {
                paint_raw_at(children, idx, ctx, data, env);
            },
        }
    }

    /// The bodies that there are, in the order of the tabs.
    pub open spec fn spec_child_pods(
        children: Seq<(u64, Option<Pod<TFD::T, TFD::BodyWidget>>)>,
        n: int,
    ) -> Seq<Pod<TFD::T, TFD::BodyWidget>>
        decreases n,
    {
        if n <= 0 {
            Seq::empty()
        } else {
            let before = Self::spec_child_pods(children, n - 1);
            match children[n - 1].1 {
                Some(node) => before.push(node),
                None => before,
            }
        }
    }

    /// The bodies that there are, in the order of the tabs.
    pub fn child_pods(&self) -> (r: Vec<&Pod<TFD::T, TFD::BodyWidget>>)
        ensures
            r@.len() == Self::spec_child_pods(self.children@, self.children@.len() as int).len(),
            forall|i: int|
                0 <= i < r@.len() ==> *(#[trigger] r@[i]) == Self::spec_child_pods(
                    self.children@,
                    self.children@.len() as int,
                )[i],
    {
        let mut out: Vec<&Pod<TFD::T, TFD::BodyWidget>> = Vec::new();
        let mut i: usize = 0;
        while i < self.children.len()
            invariant
                i <= self.children.len(),
                out@.len() == Self::spec_child_pods(self.children@, i as int).len(),
                forall|p: int|
                    0 <= p < out@.len() ==> *(#[trigger] out@[p]) == Self::spec_child_pods(
                        self.children@,
                        i as int,
                    )[p],
            decreases self.children.len() - i,
        {
            match &self.children[i].1 {
                Some(node) => {
                    out.push(node);
                },
                None => {},
            }
            i += 1;
        }
        out
    }
}

impl<TFD: TabsFromData> Widget<TabsState<TFD>> for TabsBody<TFD> {
    open spec fn wf(&self) -> bool {
        self.spec_wf()
    }

    /// Events that a hidden tab may hear go to every body in order; all
    /// others go to the body of the selected tab alone.
    open spec fn event_post(
        pre: &Self,
        ctx0: &EventCtx,
        event: &Event,
        data0: &TabsState<TFD>,
        env: &Env,
        post: &Self,
        ctx1: &EventCtx,
        data1: &TabsState<TFD>,
    ) -> bool {
        &&& post.transition == pre.transition
        &&& post.axis == pre.axis
        &&& data1.selected == data0.selected
        &&& data1.tabs_from_data == data0.tabs_from_data
        &&& if spec_hidden_should_receive_event(event) {
            all_heard(
                pre.children@,
                ctx0,
                event,
                &data0.inner,
                env,
                post.children@,
                ctx1,
                &data1.inner,
            )
        } else {
            &&& only_changed(pre.children@, data0.selected, post.children@)
            &&& slot_event_post(
                &spec_node_at(pre.children@, data0.selected),
                ctx0,
                event,
                &data0.inner,
                env,
                &spec_node_at(post.children@, data0.selected),
                ctx1,
                &data1.inner,
            )
        }
    }

    /// The first notice makes the bodies for the tabs of the data. Notices
    /// that a hidden tab may take go to every body; all others go to the
    /// body of the selected tab alone. A frame moves the slide on.
    open spec fn lifecycle_post(
        pre: &Self,
        ctx0: &LifeCycleCtx,
        event: &LifeCycle,
        data: &TabsState<TFD>,
        env: &Env,
        post: &Self,
        ctx1: &LifeCycleCtx,
    ) -> bool {
        exists|
            made: Seq<(u64, Option<Pod<TFD::T, TFD::BodyWidget>>)>,
            existing: Seq<usize>,
            first: LifeCycleCtx,
            mid: LifeCycleCtx,
        | #[trigger]
            Self::lifecycle_from(pre, ctx0, event, data, env, made, existing, &first, &mid, post, ctx1)
    }

    /// A change of the tabs brings the bodies in line with them; a change
    /// of the selected place starts a slide; then every body has its update
    /// pass.
    open spec fn update_post(
        pre: &Self,
        ctx0: &UpdateCtx,
        old_data: &TabsState<TFD>,
        data: &TabsState<TFD>,
        env: &Env,
        post: &Self,
        ctx1: &UpdateCtx,
    ) -> bool {
        exists|
            made: Seq<(u64, Option<Pod<TFD::T, TFD::BodyWidget>>)>,
            existing: Seq<usize>,
            first: UpdateCtx,
        | #[trigger]
            Self::update_from(pre, ctx0, old_data, data, env, made, existing, &first, post, ctx1)
    }

    /// The body of the selected tab is laid out and placed at the origin,
    /// and its size is the size of the whole. Where the selected place has
    /// no body, whatever the reason, the whole takes the largest size allowed
    /// and nothing else changes.
    open spec fn layout_post(
        pre: &Self,
        ctx0: &LayoutCtx,
        bc: &BoxConstraints,
        data: &TabsState<TFD>,
        env: &Env,
        post: &Self,
        ctx1: &LayoutCtx,
        size: Size,
    ) -> bool {
        &&& post.transition == pre.transition
        &&& post.axis == pre.axis
        &&& only_changed(pre.children@, data.selected, post.children@)
        &&& slot_layout_post(
            &spec_node_at(pre.children@, data.selected),
            ctx0,
            bc,
            &data.inner,
            env,
            &spec_node_at(post.children@, data.selected),
            ctx1,
            if spec_node_at(pre.children@, data.selected) is Some {
                Some(size)
            } else {
                None
            },
        )
        &&& spec_node_at(pre.children@, data.selected) is None ==> size == bc.max
    }

    /// Outside a slide the body of the selected tab paints alone, or the
    /// stand-in for a body that could not be built. During a
    /// slide the surface is clipped to the whole, and the bodies of the tab
    /// that was selected and of the one that is both paint, each moved as
    /// far as the slide has come.
    open spec fn paint_post(
        pre: &Self,
        ctx0: &PaintCtx,
        data: &TabsState<TFD>,
        env: &Env,
        post: &Self,
        ctx1: &PaintCtx,
    ) -> bool {
        &&& post.transition == pre.transition
        &&& post.axis == pre.axis
        &&& match pre.transition {
            Some(slide) => exists|
                clipped: PaintCtx,
                between: Seq<(u64, Option<Pod<TFD::T, TFD::BodyWidget>>)>,
                mid: PaintCtx,
            | #[trigger]
                Self::slide_painted(pre, slide, ctx0, data, env, &clipped, between, &mid, post, ctx1),
            None => Self::shown_painted(
                pre.children@,
                data.selected,
                ctx0,
                &data.inner,
                env,
                post.children@,
                ctx1,
            ),
        }
    }

    fn event(&mut self, ctx: &mut EventCtx, event: &Event, data: &mut TabsState<TFD>, env: &Env) {
        if hidden_should_receive_event(event) {
            event_all(&mut self.children, ctx, event, &mut data.inner, env);
        } else {
            event_at(&mut self.children, data.selected, ctx, event, &mut data.inner, env);
            proof {
                lemma_only_changed_keys(old(self).children@, data.selected, self.children@);
            }
        }
    }

    fn lifecycle(
        &mut self,
        ctx: &mut LifeCycleCtx,
        event: &LifeCycle,
        data: &TabsState<TFD>,
        env: &Env,
    ) {
        let ghost mut existing: Seq<usize> = Seq::empty();
        match event {
            LifeCycle::WidgetAdded => {
                let init_set = data.tabs_from_data.tabs(&data.inner);
                let kept = self.make_tabs(data, init_set, &mut ctx.ids);
                proof {
                    existing = kept@;
                }
                ctx.children_changed();
                ctx.request_layout();
            },
            _ => {},
        }
        let ghost made = self.children@;
        let ghost first = *ctx;
        if hidden_should_receive_lifecycle(event) {
            lifecycle_all(&mut self.children, ctx, event, &data.inner, env);
        } else {
            lifecycle_at(&mut self.children, data.selected, ctx, event, &data.inner, env);
            proof {
                lemma_only_changed_keys(made, data.selected, self.children@);
            }
        }
        let ghost mid = *ctx;
        match (self.transition, event) {
            (Some(slide), LifeCycle::AnimFrame(interval)) => {
                let moved = slide.advanced(*interval);
                if moved.live() {
                    self.transition = Some(moved);
                    ctx.request_anim_frame();
                } else {
                    self.transition = None;
                }
            },
            _ => {},
        }
        proof {
            assert(Self::lifecycle_from(
                old(self),
                old(ctx),
                event,
                data,
                env,
                made,
                existing,
                &first,
                &mid,
                self,
                ctx,
            ));
        }
    }

    fn update(
        &mut self,
        ctx: &mut UpdateCtx,
        old_data: &TabsState<TFD>,
        data: &TabsState<TFD>,
        env: &Env,
    ) {
        let ghost mut existing: Seq<usize> = Seq::empty();
        match data.tabs_from_data.tabs_changed(&old_data.inner, &data.inner) {
            Some(tab_set) => {
                ctx.children_changed();
                ctx.request_layout();
                let kept = self.make_tabs(data, tab_set, &mut ctx.ids);
                proof {
                    existing = kept@;
                }
            },
            None => {},
        }
        let ghost made = self.children@;
        let ghost first = *ctx;
        if old_data.selected != data.selected {
            self.transition = Some(
                TabsTransition::new(
                    old_data.selected,
                    TRANSITION_NANOS,
                    old_data.selected < data.selected,
                ),
            );
            ctx.request_layout();
            ctx.request_anim_frame();
        }
        update_all(&mut self.children, ctx, &data.inner, env);
        proof {
            assert(Self::update_from(
                old(self),
                old(ctx),
                old_data,
                data,
                env,
                made,
                existing,
                &first,
                self,
                ctx,
            ));
        }
    }

    fn layout(
        &mut self,
        ctx: &mut LayoutCtx,
        bc: &BoxConstraints,
        data: &TabsState<TFD>,
        env: &Env,
    ) -> (size: Size) {
        let laid = layout_at(&mut self.children, data.selected, ctx, bc, &data.inner, env);
        proof {
            lemma_only_changed_keys(old(self).children@, data.selected, self.children@);
        }
        match laid {
            Some(size) => size,
            None => bc.max(),
        }
    }

    fn paint(&mut self, ctx: &mut PaintCtx, data: &TabsState<TFD>, env: &Env) {
        match self.transition {
            Some(slide) => {
                let size = ctx.size();
                let main = self.axis.major(size);
                ctx.clip(size.to_rect());
                let ghost clipped = *ctx;
                paint_moved_at(
                    &mut self.children,
                    slide.previous_idx,
                    slide.previous_transform(self.axis, main),
                    ctx,
                    &data.inner,
                    env,
                );
                let ghost between = self.children@;
                let ghost mid = *ctx;
                paint_moved_at(
                    &mut self.children,
                    data.selected,
                    slide.selected_transform(self.axis, main),
                    ctx,
                    &data.inner,
                    env,
                );
                proof {
                    lemma_only_changed_keys(old(self).children@, slide.previous_idx, between);
                    lemma_only_changed_keys(between, data.selected, self.children@);
                    assert(Self::slide_painted(
                        old(self),
                        slide,
                        old(ctx),
                        data,
                        env,
                        &clipped,
                        between,
                        &mid,
                        self,
                        ctx,
                    ));
                }
            },
            None => {
                Self::paint_shown(&mut self.children, data.selected, ctx, &data.inner, env);
                proof {
                    lemma_only_changed_keys(old(self).children@, data.selected, self.children@);
                }
            },
        }
    }
}

/// A change of what one slot holds leaves the keys as they are.
pub proof fn lemma_only_changed_keys<T, W>(
    pre: Seq<(u64, Option<Pod<T, W>>)>,
    idx: usize,
    post: Seq<(u64, Option<Pod<T, W>>)>,
)
    requires
        only_changed(pre, idx, post),
    ensures
        keys_of(post) == keys_of(pre),
{
    assert(keys_of(post) =~= keys_of(pre));
}

} // verus!
