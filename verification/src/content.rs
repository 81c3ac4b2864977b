//! Content sets: zero or more child nodes that share one kind of
//! augmentation, filled once, derived from data, chosen by a predicate, or
//! joined end to end.

use vstd::prelude::*;
use std::marker::PhantomData;
use crate::context::Env;
use crate::data::{spec_cap, Data};
use crate::event::{IdSource, WidgetId};
use crate::keyed::{distinct, first_seen, has_key, keys_of, reconcile, slot_of};
use crate::widget::{Pod, PodState, Widget};
use crate::with_info::Augmented;

verus! {

/// A child node whose widget is sure to carry an augmentation of type `Aug`.
pub struct EnsuredPod<T, W, Aug> {
    pub pod: Pod<T, Augmented<W, Aug>>,
}

impl<T: Data, W: Widget<T>, Aug> EnsuredPod<T, W, Aug> {
    pub open spec fn wf(&self) -> bool {
        self.pod.wf()
    }

    /// A node that has just been made around `widget` and `augment`, with
    /// identity `id`.
    pub open spec fn spec_made(&self, id: WidgetId, widget: W, augment: Aug) -> bool {
        &&& self.pod.state == PodState::spec_initial(id)
        &&& self.pod.old_data is None
        &&& self.pod.inner.widget == widget
        &&& self.pod.inner.augment == augment
    }

    /// A new node around `child`, with the augmentation that `Aug` has by
    /// default and the next identity of `ids`.
    pub fn new(ids: &mut IdSource, child: W) -> (r: Self) where Aug: Default
        requires
            child.wf(),
        ensures
            r.wf(),
            r.pod.state == PodState::spec_initial(WidgetId(old(ids).next)),
            r.pod.old_data is None,
            r.pod.inner.widget == child,
            call_ensures(Aug::default, (), r.pod.inner.augment),
            final(ids).next == IdSource::after_draw(old(ids).next),
    {
        let augment = Aug::default();
        EnsuredPod { pod: Pod::new(ids, Augmented::new(child, augment)) }
    }

    /// A new node around `child` with the given augmentation and the next
    /// identity of `ids`.
    pub fn with_aug(ids: &mut IdSource, child: W, augment: Aug) -> (r: Self)
        requires
            child.wf(),
        ensures
            r.wf(),
            r.spec_made(WidgetId(old(ids).next), child, augment),
            final(ids).next == IdSource::after_draw(old(ids).next),
    {
        EnsuredPod { pod: Pod::new(ids, Augmented::new(child, augment)) }
    }

    /// The augmentation of the child.
    pub fn aug(&self) -> (r: &Aug)
        ensures
            *r == self.pod.inner.augment,
    {
        self.pod.widget().augmentation()
    }

    /// The node.
    pub fn pod(&self) -> (r: &Pod<T, Augmented<W, Aug>>)
        ensures
            *r == self.pod,
    {
        &self.pod
    }

    /// The node, to hand a phase to.
    pub fn pod_mut(&mut self) -> (r: &mut Pod<T, Augmented<W, Aug>>)
        ensures
            *r == old(self).pod,
            final(self).pod == *final(r),
    {
        &mut self.pod
    }
}

/// A set of child nodes in a fixed order.
///
/// `children` is the set as its parent sees it. Each strategy says in
/// `added_post` and `update_post` how it fills the set, and in
/// `child_replaced` what else stays as it is while a child changes.
pub trait Content<T: Data, W: Widget<T>, Aug>: Sized {
    /// The invariant of the set; it holds the invariant of each child.
    spec fn wf(&self) -> bool;

    /// The children, in the order in which they are visited.
    spec fn children(&self) -> Seq<EnsuredPod<T, W, Aug>>;

    /// Whether a child handed to `add_child_widget` is taken.
    spec fn accepts_children(&self) -> bool;

    /// What `content_added` may do.
    spec fn added_post(
        pre: &Self,
        data: &T,
        env: &Env,
        ids0: &IdSource,
        post: &Self,
        ids1: &IdSource,
    ) -> bool;

    /// What `update` may do and answer.
    spec fn update_post(
        pre: &Self,
        old_data: &T,
        data: &T,
        env: &Env,
        ids0: &IdSource,
        post: &Self,
        ids1: &IdSource,
        changed: bool,
    ) -> bool;

    /// `post` is `pre` with the child at `idx` replaced by `child`, and
    /// nothing else changed.
    spec fn child_replaced(pre: &Self, idx: int, child: EnsuredPod<T, W, Aug>, post: &Self) -> bool;

    /// `post` is `pre` with `children` in place of its children, one for
    /// one, and nothing else changed.
    spec fn children_replaced(
        pre: &Self,
        children: Seq<EnsuredPod<T, W, Aug>>,
        post: &Self,
    ) -> bool;

    /// A set is itself with its own children.
    proof fn lemma_replaced_none(&self)
        requires
            self.wf(),
        ensures
            Self::children_replaced(self, self.children(), self),
    ;

    /// Replacing one more child adds up.
    proof fn lemma_replaced_more(
        first: &Self,
        children: Seq<EnsuredPod<T, W, Aug>>,
        then: &Self,
        idx: int,
        child: EnsuredPod<T, W, Aug>,
        last: &Self,
    )
        requires
            first.wf(),
            then.wf(),
            child.wf(),
            Self::children_replaced(first, children, then),
            0 <= idx < then.children().len(),
            Self::child_replaced(then, idx, child, last),
        ensures
            Self::children_replaced(first, children.update(idx, child), last),
    ;

    /// A set with its children replaced has those children.
    proof fn lemma_replaced_children(
        pre: &Self,
        children: Seq<EnsuredPod<T, W, Aug>>,
        post: &Self,
    )
        requires
            pre.wf(),
            Self::children_replaced(pre, children, post),
        ensures
            post.children() == children,
            children.len() == pre.children().len(),
            post.accepts_children() == pre.accepts_children(),
    ;

    /// Every child of a well-formed set is well-formed.
    proof fn lemma_children_wf(&self)
        requires
            self.wf(),
        ensures
            forall|i: int| 0 <= i < self.children().len() ==> (#[trigger] self.children()[i]).wf(),
    ;

    /// Replacing a child by a well-formed one changes that child alone.
    proof fn lemma_child_replaced(pre: &Self, idx: int, child: EnsuredPod<T, W, Aug>, post: &Self)
        requires
            pre.wf(),
            child.wf(),
            0 <= idx < pre.children().len(),
            Self::child_replaced(pre, idx, child, post),
        ensures
            post.wf(),
            post.children() == pre.children().update(idx, child),
            post.accepts_children() == pre.accepts_children(),
    ;

    /// Adds a child at the end, if this set takes children from outside.
    fn add_child_widget(&mut self, cw: EnsuredPod<T, W, Aug>) -> (accepted: bool)
        requires
            old(self).wf(),
            cw.wf(),
        ensures
            final(self).wf(),
            accepted == old(self).accepts_children(),
            accepted ==> final(self).children() == old(self).children().push(cw),
            !accepted ==> final(self).children() == old(self).children(),
    ;

    /// Fills the set for the first time.
    fn content_added(&mut self, data: &T, env: &Env, ids: &mut IdSource)
        requires
            old(self).wf(),
        ensures
            final(self).wf(),
            Self::added_post(old(self), data, env, old(ids), final(self), final(ids)),
    ;

    /// Brings the set in line with new data. The answer says whether the
    /// set of children changed.
    fn update(&mut self, old_data: &T, data: &T, env: &Env, ids: &mut IdSource) -> (changed: bool)
        requires
            old(self).wf(),
        ensures
            final(self).wf(),
            Self::update_post(old(self), old_data, data, env, old(ids), final(self), final(ids), changed),
    ;

    /// Whether there is a child at `idx`.
    fn has_child(&self, idx: usize) -> (r: bool)
        requires
            self.wf(),
        ensures
            r == (idx < self.children().len()),
    ;

    /// The child at `idx`, to hand a phase to.
    fn child_mut(&mut self, idx: usize) -> (r: Option<&mut EnsuredPod<T, W, Aug>>)
        requires
            old(self).wf(),
        ensures
            idx < old(self).children().len() ==> r is Some && *r->0 == old(self).children()[idx as int]
                && Self::child_replaced(old(self), idx as int, *final(r->0), final(self)),
            idx >= old(self).children().len() ==> r is None && *final(self) == *old(self),
    ;

    /// The last child.
    fn last_child(&self) -> (r: Option<&EnsuredPod<T, W, Aug>>)
        requires
            self.wf(),
        ensures
            self.children().len() == 0 ==> r is None,
            self.children().len() > 0 ==> r == Some(&self.children().last()),
    ;

    /// The number of children, as far as `usize` can count.
    fn len(&self) -> (r: usize)
        requires
            self.wf(),
        ensures
            r == spec_cap(self.children().len()),
    ;

    /// Whether the set has no child.
    fn is_empty(&self) -> (r: bool)
        requires
            self.wf(),
        ensures
            r == (self.children().len() == 0),
    ;
}

/// Children given at construction. Data does not change the set.
pub struct StaticContent<T, W, Aug> {
    pub children: Vec<EnsuredPod<T, W, Aug>>,
}

impl<T: Data, W: Widget<T>, Aug> StaticContent<T, W, Aug> {
    /// The empty set.
    pub fn empty() -> (r: Self)
        ensures
            r.wf(),
            r.children() == Seq::<EnsuredPod<T, W, Aug>>::empty(),
    {
        StaticContent { children: Vec::new() }
    }

    /// A set of one child.
    pub fn of(ids: &mut IdSource, w: W) -> (r: Self) where Aug: Default
        requires
            w.wf(),
        ensures
            r.wf(),
            r.children().len() == 1,
            r.children()[0].pod.state == PodState::spec_initial(WidgetId(old(ids).next)),
            r.children()[0].pod.old_data is None,
            r.children()[0].pod.inner.widget == w,
            final(ids).next == IdSource::after_draw(old(ids).next),
    {
        Self::empty().with_child(ids, w)
    }

    /// This set with one more child at the end.
    pub fn with_child(self, ids: &mut IdSource, w: W) -> (r: Self) where Aug: Default
        requires
            self.wf(),
            w.wf(),
        ensures
            r.wf(),
            r.children().len() == self.children().len() + 1,
            r.children().take(self.children().len() as int) == self.children(),
            r.children().last().pod.state == PodState::spec_initial(WidgetId(old(ids).next)),
            r.children().last().pod.old_data is None,
            r.children().last().pod.inner.widget == w,
            final(ids).next == IdSource::after_draw(old(ids).next),
    {
        let mut this = self;
        let pod = EnsuredPod::new(ids, w);
        this.add_child_widget(pod);
        assert(this.children().take(self.children().len() as int) =~= self.children());
        this
    }
}

impl<T: Data, W: Widget<T>, Aug> Content<T, W, Aug> for StaticContent<T, W, Aug> {
    open spec fn wf(&self) -> bool {
        forall|i: int| 0 <= i < self.children@.len() ==> (#[trigger] self.children@[i]).wf()
    }

    open spec fn children(&self) -> Seq<EnsuredPod<T, W, Aug>> {
        self.children@
    }

    open spec fn accepts_children(&self) -> bool {
        true
    }

    open spec fn added_post(
        pre: &Self,
        data: &T,
        env: &Env,
        ids0: &IdSource,
        post: &Self,
        ids1: &IdSource,
    ) -> bool {
        *post == *pre && *ids1 == *ids0
    }

    open spec fn update_post(
        pre: &Self,
        old_data: &T,
        data: &T,
        env: &Env,
        ids0: &IdSource,
        post: &Self,
        ids1: &IdSource,
        changed: bool,
    ) -> bool {
        *post == *pre && *ids1 == *ids0 && !changed
    }

    open spec fn child_replaced(
        pre: &Self,
        idx: int,
        child: EnsuredPod<T, W, Aug>,
        post: &Self,
    ) -> bool {
        post.children@ == pre.children@.update(idx, child)
    }

    open spec fn children_replaced(
        pre: &Self,
        children: Seq<EnsuredPod<T, W, Aug>>,
        post: &Self,
    ) -> bool {
        post.children@ == children && children.len() == pre.children@.len()
    }

    proof fn lemma_replaced_none(&self) {
    }

    proof fn lemma_replaced_more(
        first: &Self,
        children: Seq<EnsuredPod<T, W, Aug>>,
        then: &Self,
        idx: int,
        child: EnsuredPod<T, W, Aug>,
        last: &Self,
    ) {
    }

    proof fn lemma_replaced_children(
        pre: &Self,
        children: Seq<EnsuredPod<T, W, Aug>>,
        post: &Self,
    ) {
    }

    proof fn lemma_children_wf(&self) {
    }

    proof fn lemma_child_replaced(pre: &Self, idx: int, child: EnsuredPod<T, W, Aug>, post: &Self) {
    }

    fn add_child_widget(&mut self, cw: EnsuredPod<T, W, Aug>) -> (accepted: bool) {
        self.children.push(cw);
        true
    }

    fn content_added(&mut self, data: &T, env: &Env, ids: &mut IdSource) {
    }

    fn update(&mut self, old_data: &T, data: &T, env: &Env, ids: &mut IdSource) -> (changed: bool) {
        false
    }

    fn has_child(&self, idx: usize) -> (r: bool) {
        idx < self.children.len()
    }

    fn child_mut(&mut self, idx: usize) -> (r: Option<&mut EnsuredPod<T, W, Aug>>) {
        if idx < self.children.len() {
            Some(&mut self.children[idx])
        } else {
            None
        }
    }

    fn last_child(&self) -> (r: Option<&EnsuredPod<T, W, Aug>>) {
        let n = self.children.len();
        if n == 0 {
            None
        } else {
            Some(&self.children[n - 1])
        }
    }

    fn len(&self) -> (r: usize) {
        self.children.len()
    }

    fn is_empty(&self) -> (r: bool) {
        self.children.len() == 0
    }
}

/// Children derived from data: one child for each key that the data gives.
///
/// `values_from_data` gives the keys, in order, and `make_widget` makes the
/// widget for a new key. A key that is given again keeps its child as it is;
/// the child of a key that is no longer given is dropped. A key given twice
/// in one round counts where it first stands.
pub struct ForEachContent<T, W, Aug, FK, FW> {
    pub values_from_data: FK,
    pub make_widget: FW,
    pub entries: Vec<(u64, Option<EnsuredPod<T, W, Aug>>)>,
}

/// The node was made in a round that took the identities from `ids0` up to
/// `ids1`: it is in its initial state, and its identity is one of those drawn.
pub open spec fn made_between<T, W, Aug>(
    child: &EnsuredPod<T, W, Aug>,
    ids0: &IdSource,
    ids1: &IdSource,
) -> bool {
    let id = child.pod.state.id;
    &&& child.pod.state == PodState::spec_initial(id)
    &&& child.pod.old_data is None
    &&& ids0.next <= id.0 <= ids1.next
    &&& id.0 < ids1.next || ids1.exhausted()
}

impl<
    T: Data,
    W: Widget<T>,
    Aug: Default,
    FK: Fn(&T, &Env) -> Vec<u64>,
    FW: Fn(&T, &Env, u64) -> W,
> ForEachContent<T, W, Aug, FK, FW> {
    /// The two functions accept every input, and every widget made is well-formed.
    pub open spec fn functions_total(values_from_data: &FK, make_widget: &FW) -> bool {
        &&& forall|d: &T, e: &Env| call_requires(*values_from_data, (d, e))
        &&& forall|d: &T, e: &Env, k: u64| call_requires(*make_widget, (d, e, k))
        &&& forall|d: &T, e: &Env, k: u64, w: W|
            call_ensures(*make_widget, (d, e, k), w) ==> w.wf()
    }

    /// The keys of the children, in order.
    pub open spec fn keys(&self) -> Seq<u64> {
        keys_of(self.entries@)
    }

    /// The child kept under `key`, if the key is there.
    pub open spec fn child_of(&self, key: u64) -> Option<EnsuredPod<T, W, Aug>> {
        slot_of(self.entries@, key)
    }

    /// A dynamic set without children; the first round fills it.
    pub fn new(values_from_data: FK, make_widget: FW) -> (r: Self)
        requires
            Self::functions_total(&values_from_data, &make_widget),
        ensures
            r.wf(),
            r.values_from_data == values_from_data,
            r.make_widget == make_widget,
            r.children() == Seq::<EnsuredPod<T, W, Aug>>::empty(),
            r.keys() == Seq::<u64>::empty(),
    {
        let r = ForEachContent { values_from_data, make_widget, entries: Vec::new() };
        assert(r.children() =~= Seq::<EnsuredPod<T, W, Aug>>::empty());
        assert(r.keys() =~= Seq::<u64>::empty());
        r
    }

    /// What a round over `data` makes of the set: the keys are those that the
    /// data gives; a key that was there keeps its child; a new key has a new
    /// child around the widget made for it.
    pub open spec fn refreshed(
        pre: &Self,
        data: &T,
        env: &Env,
        ids0: &IdSource,
        post: &Self,
        ids1: &IdSource,
        changed: bool,
    ) -> bool {
        &&& post.values_from_data == pre.values_from_data
        &&& post.make_widget == pre.make_widget
        &&& exists|raw: Vec<u64>| #[trigger]
            call_ensures(pre.values_from_data, (data, env), raw) && post.keys() == first_seen(
                raw@,
                raw.len() as int,
            )
        &&& forall|i: int|
            0 <= i < post.entries.len() ==> {
                let key = (#[trigger] post.entries[i]).0;
                let slot = post.entries[i].1;
                &&& slot is Some
                &&& if has_key(pre.entries@, key) {
                    slot == pre.child_of(key)
                } else {
                    &&& made_between(&slot->0, ids0, ids1)
                    &&& call_ensures(pre.make_widget, (data, env, key), slot->0.pod.inner.widget)
                    &&& call_ensures(Aug::default, (), slot->0.pod.inner.augment)
                }
            }
        &&& ids0.next <= ids1.next
        &&& changed == (post.keys() != pre.keys())
    }

    fn current_keys(&self) -> (r: Vec<u64>)
        ensures
            r@ == self.keys(),
    {
        let mut out: Vec<u64> = Vec::new();
        let mut i: usize = 0;
        while i < self.entries.len()
            invariant
                i <= self.entries.len(),
                out@ == self.keys().take(i as int),
            decreases self.entries.len() - i,
        {
            out.push(self.entries[i].0);
            assert(out@ =~= self.keys().take(i + 1));
            i += 1;
        }
        assert(out@ =~= self.keys());
        out
    }

    fn keys_differ(&self, other: &Vec<u64>) -> (r: bool)
        ensures
            r == (self.keys() != other@),
    {
        if self.entries.len() != other.len() {
            return true;
        }
        let mut i: usize = 0;
        while i < other.len()
            invariant
                i <= other.len(),
                self.entries.len() == other.len(),
                forall|p: int| 0 <= p < i ==> self.keys()[p] == other@[p],
            decreases other.len() - i,
        {
            if self.entries[i].0 != other[i] {
                assert(self.keys()[i as int] != other@[i as int]);
                return true;
            }
            i += 1;
        }
        assert(self.keys() =~= other@);
        false
    }

    /// Runs one round over `data`, whether or not the data changed.
    pub fn update_impl(&mut self, data: &T, env: &Env, ids: &mut IdSource) -> (changed: bool)
        requires
            old(self).wf(),
        ensures
            final(self).wf(),
            Self::refreshed(old(self), data, env, old(ids), final(self), final(ids), changed),
    {
        let before = self.current_keys();
        let raw = (self.values_from_data)(data, env);
        let mut held: Vec<(u64, Option<EnsuredPod<T, W, Aug>>)> = Vec::new();
        std::mem::swap(&mut self.entries, &mut held);
        let ghost old_entries = held@;
        let (mut slots, _kept, _had) = reconcile(held, &raw);
        let ghost laid = slots@;
        let mut i: usize = 0;
        while i < slots.len()
            invariant
                i <= slots.len(),
                slots.len() == laid.len(),
                old_entries == old(self).entries@,
                old(self).wf(),
                self.values_from_data == old(self).values_from_data,
                self.make_widget == old(self).make_widget,
                keys_of(slots@) == keys_of(laid),
                distinct(keys_of(laid)),
                forall|p: int| 0 <= p < laid.len() ==> (#[trigger] laid[p]).1 == slot_of(old_entries, laid[p].0),
                forall|p: int| i <= p < slots.len() ==> #[trigger] slots[p] == laid[p],
                old(ids).next <= ids.next,
                forall|p: int|
                    0 <= p < i ==> {
                        let key = (#[trigger] slots[p]).0;
                        let slot = slots[p].1;
                        &&& slot is Some
                        &&& slot->0.wf()
                        &&& if has_key(old_entries, key) {
                            slot == slot_of(old_entries, key)
                        } else {
                            &&& made_between(&slot->0, old(ids), ids)
                            &&& call_ensures(
                                old(self).make_widget,
                                (data, env, key),
                                slot->0.pod.inner.widget,
                            )
                            &&& call_ensures(Aug::default, (), slot->0.pod.inner.augment)
                        }
                    },
            decreases slots.len() - i,
        {
            let key = slots[i].0;
            let ghost was = slots@;
            proof {
                assert(slots[i as int] == laid[i as int]);
                if has_key(old_entries, key) {
                    Self::lemma_kept_child(old(self), key);
                }
            }
            if slots[i].1.is_none() {
                let widget = (self.make_widget)(data, env, key);
                let child = EnsuredPod::new(ids, widget);
                slots.set(i, (key, Some(child)));
                assert(keys_of(slots@) =~= keys_of(was));
            }
            i += 1;
        }
        self.entries = slots;
        let changed = self.keys_differ(&before);
        proof {
            assert(call_ensures(old(self).values_from_data, (data, env), raw));
        }
        changed
    }

    /// In a well-formed set every key has a well-formed child.
    pub proof fn lemma_kept_child(&self, key: u64)
        requires
            self.wf(),
            has_key(self.entries@, key),
        ensures
            self.child_of(key) is Some,
            self.child_of(key)->0.wf(),
    {
        let j = crate::keyed::position(self.entries@, key);
        assert(0 <= j < self.entries@.len() && self.entries@[j].0 == key);
        assert(self.entries@[j].1 is Some);
    }
}

impl<
    T: Data,
    W: Widget<T>,
    Aug: Default,
    FK: Fn(&T, &Env) -> Vec<u64>,
    FW: Fn(&T, &Env, u64) -> W,
> Content<T, W, Aug> for ForEachContent<T, W, Aug, FK, FW> {
    open spec fn wf(&self) -> bool {
        &&& Self::functions_total(&self.values_from_data, &self.make_widget)
        &&& distinct(keys_of(self.entries@))
        &&& forall|i: int|
            0 <= i < self.entries@.len() ==> (#[trigger] self.entries@[i]).1 is Some
                && self.entries@[i].1->0.wf()
    }

    open spec fn children(&self) -> Seq<EnsuredPod<T, W, Aug>> {
        Seq::new(self.entries@.len(), |i: int| self.entries@[i].1->0)
    }

    open spec fn accepts_children(&self) -> bool {
        false
    }

    open spec fn added_post(
        pre: &Self,
        data: &T,
        env: &Env,
        ids0: &IdSource,
        post: &Self,
        ids1: &IdSource,
    ) -> bool {
        exists|changed: bool| #[trigger] Self::refreshed(pre, data, env, ids0, post, ids1, changed)
    }

    open spec fn update_post(
        pre: &Self,
        old_data: &T,
        data: &T,
        env: &Env,
        ids0: &IdSource,
        post: &Self,
        ids1: &IdSource,
        changed: bool,
    ) -> bool {
        if old_data.same_spec(data) {
            *post == *pre && *ids1 == *ids0 && !changed
        } else {
            Self::refreshed(pre, data, env, ids0, post, ids1, changed)
        }
    }

    open spec fn child_replaced(
        pre: &Self,
        idx: int,
        child: EnsuredPod<T, W, Aug>,
        post: &Self,
    ) -> bool {
        &&& post.values_from_data == pre.values_from_data
        &&& post.make_widget == pre.make_widget
        &&& post.entries@ == pre.entries@.update(idx, (pre.entries@[idx].0, Some(child)))
    }

    open spec fn children_replaced(
        pre: &Self,
        children: Seq<EnsuredPod<T, W, Aug>>,
        post: &Self,
    ) -> bool {
        &&& post.values_from_data == pre.values_from_data
        &&& post.make_widget == pre.make_widget
        &&& children.len() == pre.entries@.len()
        &&& post.entries@ == Seq::new(
            children.len(),
            |i: int| (pre.entries@[i].0, Some(children[i])),
        )
    }

    proof fn lemma_replaced_none(&self) {
        assert(self.entries@ =~= Seq::new(
            self.children().len(),
            |i: int| (self.entries@[i].0, Some(self.children()[i])),
        ));
    }

    proof fn lemma_replaced_more(
        first: &Self,
        children: Seq<EnsuredPod<T, W, Aug>>,
        then: &Self,
        idx: int,
        child: EnsuredPod<T, W, Aug>,
        last: &Self,
    ) {
        let more = children.update(idx, child);
        assert(last.entries@ =~= Seq::new(
            more.len(),
            |i: int| (first.entries@[i].0, Some(more[i])),
        ));
    }

    proof fn lemma_replaced_children(
        pre: &Self,
        children: Seq<EnsuredPod<T, W, Aug>>,
        post: &Self,
    ) {
        assert(post.children() =~= children);
    }

    proof fn lemma_children_wf(&self) {
    }

    proof fn lemma_child_replaced(pre: &Self, idx: int, child: EnsuredPod<T, W, Aug>, post: &Self) {
        assert(keys_of(post.entries@) =~= keys_of(pre.entries@));
        assert(post.children() =~= pre.children().update(idx, child));
    }

    fn add_child_widget(&mut self, cw: EnsuredPod<T, W, Aug>) -> (accepted: bool) {
        false
    }

    fn content_added(&mut self, data: &T, env: &Env, ids: &mut IdSource) {
        let changed = self.update_impl(data, env, ids);
        assert(Self::refreshed(old(self), data, env, old(ids), self, ids, changed));
    }

    fn update(&mut self, old_data: &T, data: &T, env: &Env, ids: &mut IdSource) -> (changed: bool) {
        if !old_data.same(data) {
            self.update_impl(data, env, ids)
        } else {
            false
        }
    }

    fn has_child(&self, idx: usize) -> (r: bool) {
        idx < self.entries.len()
    }

    fn child_mut(&mut self, idx: usize) -> (r: Option<&mut EnsuredPod<T, W, Aug>>) {
        if idx < self.entries.len() {
            let entry = &mut self.entries[idx];
            match &mut entry.1 {
                Some(child) => Some(child),
                None => None,
            }
        } else {
            None
        }
    }

    fn last_child(&self) -> (r: Option<&EnsuredPod<T, W, Aug>>) {
        let n = self.entries.len();
        if n == 0 {
            None
        } else {
            self.entries[n - 1].1.as_ref()
        }
    }

    fn len(&self) -> (r: usize) {
        self.entries.len()
    }

    fn is_empty(&self) -> (r: bool) {
        self.entries.len() == 0
    }
}

/// A key that two rounds in a row give keeps its child: the node, its state
/// and the state of its widget are the same after the round as before it.
pub proof fn lemma_identity_stable<
    T: Data,
    W: Widget<T>,
    Aug: Default,
    FK: Fn(&T, &Env) -> Vec<u64>,
    FW: Fn(&T, &Env, u64) -> W,
>(
    pre: &ForEachContent<T, W, Aug, FK, FW>,
    data: &T,
    env: &Env,
    ids0: &IdSource,
    post: &ForEachContent<T, W, Aug, FK, FW>,
    ids1: &IdSource,
    changed: bool,
    key: u64,
)
    requires
        pre.wf(),
        post.wf(),
        ForEachContent::refreshed(pre, data, env, ids0, post, ids1, changed),
        has_key(pre.entries@, key),
        has_key(post.entries@, key),
    ensures
        post.child_of(key) is Some,
        post.child_of(key) == pre.child_of(key),
{
    let i = crate::keyed::position(post.entries@, key);
    assert(0 <= i < post.entries@.len() && post.entries@[i].0 == key);
    assert(post.entries[i].1 == pre.child_of(key));
    pre.lemma_kept_child(key);
}

/// A key that a round does not give loses its child, and a key that comes
/// back after such a round starts anew: its child is a new node in its
/// initial state, around the widget made for the key in that round, with an
/// identity that no node made before the round has.
pub proof fn lemma_gap_recreates<
    T: Data,
    W: Widget<T>,
    Aug: Default,
    FK: Fn(&T, &Env) -> Vec<u64>,
    FW: Fn(&T, &Env, u64) -> W,
>(
    absent: &ForEachContent<T, W, Aug, FK, FW>,
    data: &T,
    env: &Env,
    ids0: &IdSource,
    present: &ForEachContent<T, W, Aug, FK, FW>,
    ids1: &IdSource,
    changed: bool,
    key: u64,
)
    requires
        absent.wf(),
        present.wf(),
        !has_key(absent.entries@, key),
        ForEachContent::refreshed(absent, data, env, ids0, present, ids1, changed),
        has_key(present.entries@, key),
    ensures
        present.child_of(key) is Some,
        made_between(&present.child_of(key)->0, ids0, ids1),
        call_ensures(absent.make_widget, (data, env, key), present.child_of(key)->0.pod.inner.widget),
        forall|earlier: WidgetId|
            earlier.0 < ids0.next ==> present.child_of(key)->0.pod.state.id != earlier,
        changed,
{
    let i = crate::keyed::position(present.entries@, key);
    assert(0 <= i < present.entries@.len() && present.entries@[i].0 == key);
    assert(present.entries[i].1 is Some);
    assert(keys_of(present.entries@)[i] == key);
    if keys_of(present.entries@) == keys_of(absent.entries@) {
        assert(keys_of(absent.entries@).len() == present.entries@.len());
        assert(absent.entries@.len() == keys_of(absent.entries@).len());
        assert(keys_of(absent.entries@)[i] == key);
        assert(absent.entries@[i].0 == key);
        assert(false);
    }
}

/// Two sets joined end to end: the children of the first, then those of the
/// second. A child added from outside goes to the second.
pub struct ComposedContent<C1, C2> {
    pub content1: C1,
    pub content2: C2,
}

impl<C1, C2> ComposedContent<C1, C2> {
    pub fn new(content1: C1, content2: C2) -> (r: Self)
        ensures
            r.content1 == content1,
            r.content2 == content2,
    {
        ComposedContent { content1, content2 }
    }
}

impl<T: Data, W: Widget<T>, Aug, C1: Content<T, W, Aug>, C2: Content<T, W, Aug>> Content<
    T,
    W,
    Aug,
> for ComposedContent<C1, C2> {
    open spec fn wf(&self) -> bool {
        self.content1.wf() && self.content2.wf()
    }

    open spec fn children(&self) -> Seq<EnsuredPod<T, W, Aug>> {
        self.content1.children() + self.content2.children()
    }

    open spec fn accepts_children(&self) -> bool {
        self.content2.accepts_children()
    }

    open spec fn added_post(
        pre: &Self,
        data: &T,
        env: &Env,
        ids0: &IdSource,
        post: &Self,
        ids1: &IdSource,
    ) -> bool {
        exists|mid: IdSource|
            {
                &&& #[trigger] C1::added_post(&pre.content1, data, env, ids0, &post.content1, &mid)
                &&& C2::added_post(&pre.content2, data, env, &mid, &post.content2, ids1)
            }
    }

    open spec fn update_post(
        pre: &Self,
        old_data: &T,
        data: &T,
        env: &Env,
        ids0: &IdSource,
        post: &Self,
        ids1: &IdSource,
        changed: bool,
    ) -> bool {
        exists|mid: IdSource, first: bool, second: bool|
            {
                &&& #[trigger] C1::update_post(
                    &pre.content1,
                    old_data,
                    data,
                    env,
                    ids0,
                    &post.content1,
                    &mid,
                    first,
                )
                &&& #[trigger] C2::update_post(
                    &pre.content2,
                    old_data,
                    data,
                    env,
                    &mid,
                    &post.content2,
                    ids1,
                    second,
                )
                &&& changed == (first || second)
            }
    }

    open spec fn child_replaced(
        pre: &Self,
        idx: int,
        child: EnsuredPod<T, W, Aug>,
        post: &Self,
    ) -> bool {
        if idx < pre.content1.children().len() {
            C1::child_replaced(&pre.content1, idx, child, &post.content1) && post.content2
                == pre.content2
        } else {
            C2::child_replaced(
                &pre.content2,
                idx - pre.content1.children().len(),
                child,
                &post.content2,
            ) && post.content1 == pre.content1
        }
    }

    open spec fn children_replaced(
        pre: &Self,
        children: Seq<EnsuredPod<T, W, Aug>>,
        post: &Self,
    ) -> bool {
        let n1 = pre.content1.children().len() as int;
        &&& children.len() == n1 + pre.content2.children().len()
        &&& C1::children_replaced(&pre.content1, children.take(n1), &post.content1)
        &&& C2::children_replaced(&pre.content2, children.skip(n1), &post.content2)
    }

    proof fn lemma_replaced_none(&self) {
        let n1 = self.content1.children().len() as int;
        self.content1.lemma_replaced_none();
        self.content2.lemma_replaced_none();
        assert(self.children().take(n1) =~= self.content1.children());
        assert(self.children().skip(n1) =~= self.content2.children());
    }

    proof fn lemma_replaced_more(
        first: &Self,
        children: Seq<EnsuredPod<T, W, Aug>>,
        then: &Self,
        idx: int,
        child: EnsuredPod<T, W, Aug>,
        last: &Self,
    ) {
        let n1 = first.content1.children().len() as int;
        let more = children.update(idx, child);
        C1::lemma_replaced_children(&first.content1, children.take(n1), &then.content1);
        C2::lemma_replaced_children(&first.content2, children.skip(n1), &then.content2);
        if idx < n1 {
            C1::lemma_replaced_more(
                &first.content1,
                children.take(n1),
                &then.content1,
                idx,
                child,
                &last.content1,
            );
            assert(more.take(n1) =~= children.take(n1).update(idx, child));
            assert(more.skip(n1) =~= children.skip(n1));
        } else {
            C2::lemma_replaced_more(
                &first.content2,
                children.skip(n1),
                &then.content2,
                idx - n1,
                child,
                &last.content2,
            );
            assert(more.skip(n1) =~= children.skip(n1).update(idx - n1, child));
            assert(more.take(n1) =~= children.take(n1));
        }
    }

    proof fn lemma_replaced_children(
        pre: &Self,
        children: Seq<EnsuredPod<T, W, Aug>>,
        post: &Self,
    ) {
        let n1 = pre.content1.children().len() as int;
        C1::lemma_replaced_children(&pre.content1, children.take(n1), &post.content1);
        C2::lemma_replaced_children(&pre.content2, children.skip(n1), &post.content2);
        assert(post.children() =~= children);
    }

    proof fn lemma_children_wf(&self) {
        self.content1.lemma_children_wf();
        self.content2.lemma_children_wf();
    }

    proof fn lemma_child_replaced(pre: &Self, idx: int, child: EnsuredPod<T, W, Aug>, post: &Self) {
        let n1 = pre.content1.children().len();
        if idx < n1 {
            C1::lemma_child_replaced(&pre.content1, idx, child, &post.content1);
        } else {
            C2::lemma_child_replaced(&pre.content2, idx - n1, child, &post.content2);
        }
        assert(post.children() =~= pre.children().update(idx, child));
    }

    fn add_child_widget(&mut self, cw: EnsuredPod<T, W, Aug>) -> (accepted: bool) {
        let accepted = self.content2.add_child_widget(cw);
        proof {
            if accepted {
                assert(self.children() =~= old(self).children().push(cw));
            }
        }
        accepted
    }

    fn content_added(&mut self, data: &T, env: &Env, ids: &mut IdSource) {
        self.content1.content_added(data, env, ids);
        let ghost mid = *ids;
        self.content2.content_added(data, env, ids);
        assert(C1::added_post(&old(self).content1, data, env, old(ids), &self.content1, &mid));
    }

    fn update(&mut self, old_data: &T, data: &T, env: &Env, ids: &mut IdSource) -> (changed: bool) {
        let first = self.content1.update(old_data, data, env, ids);
        let ghost mid = *ids;
        let second = self.content2.update(old_data, data, env, ids);
        assert(C1::update_post(
            &old(self).content1,
            old_data,
            data,
            env,
            old(ids),
            &self.content1,
            &mid,
            first,
        ));
        first || second
    }

    fn has_child(&self, idx: usize) -> (r: bool) {
        if self.content1.has_child(idx) {
            true
        } else {
            let len1 = self.content1.len();
            self.content2.has_child(idx - len1)
        }
    }

    fn child_mut(&mut self, idx: usize) -> (r: Option<&mut EnsuredPod<T, W, Aug>>) {
        if self.content1.has_child(idx) {
            self.content1.child_mut(idx)
        } else {
            let len1 = self.content1.len();
            self.content2.child_mut(idx - len1)
        }
    }

    fn last_child(&self) -> (r: Option<&EnsuredPod<T, W, Aug>>) {
        match self.content2.last_child() {
            Some(child) => Some(child),
            None => {
                assert(self.children() =~= self.content1.children());
                self.content1.last_child()
            },
        }
    }

    fn len(&self) -> (r: usize) {
        let a = self.content1.len();
        let b = self.content2.len();
        if a > usize::MAX - b {
            usize::MAX
        } else {
            a + b
        }
    }

    fn is_empty(&self) -> (r: bool) {
        self.content1.is_empty() && self.content2.is_empty()
    }
}

/// Joining sets.
pub trait ContentExt<T: Data, W: Widget<T>, Aug>: Content<T, W, Aug> {
    /// This set followed by `other`.
    fn then<Other: Content<T, W, Aug>>(self, other: Other) -> (r: ComposedContent<Self, Other>)
        ensures
            r.content1 == self,
            r.content2 == other,
    {
        ComposedContent::new(self, other)
    }
}

impl<T: Data, W: Widget<T>, Aug, C: Content<T, W, Aug>> ContentExt<T, W, Aug> for C {
}

/// One branch of a conditional set: a set, and whether it has been filled.
pub struct CondBranch<T, W, Aug, C> {
    pub und: C,
    pub shown: bool,
    pub phantom: PhantomData<(T, W, Aug)>,
}

impl<T: Data, W: Widget<T>, Aug, C: Content<T, W, Aug>> CondBranch<T, W, Aug, C> {
    /// A branch that has not been shown.
    pub fn new(und: C) -> (r: Self)
        ensures
            r.und == und,
            !r.shown,
    {
        CondBranch { und, shown: false, phantom: PhantomData }
    }

    /// What `content_added` does: the set is filled, and the branch counts
    /// as shown.
    pub open spec fn added_post(
        pre: &Self,
        data: &T,
        env: &Env,
        ids0: &IdSource,
        post: &Self,
        ids1: &IdSource,
    ) -> bool {
        post.shown && C::added_post(&pre.und, data, env, ids0, &post.und, ids1)
    }

    /// Fills the branch.
    pub fn content_added(&mut self, data: &T, env: &Env, ids: &mut IdSource)
        requires
            old(self).und.wf(),
        ensures
            final(self).und.wf(),
            Self::added_post(old(self), data, env, old(ids), final(self), final(ids)),
    {
        self.und.content_added(data, env, ids);
        self.shown = true;
    }

    /// What `update` does: a branch that has been shown is updated; one that
    /// has not is filled, which counts as a change.
    pub open spec fn update_post(
        pre: &Self,
        old_data: &T,
        data: &T,
        env: &Env,
        ids0: &IdSource,
        post: &Self,
        ids1: &IdSource,
        changed: bool,
    ) -> bool {
        if pre.shown {
            post.shown && C::update_post(&pre.und, old_data, data, env, ids0, &post.und, ids1, changed)
        } else {
            changed && Self::added_post(pre, data, env, ids0, post, ids1)
        }
    }

    /// Updates the branch, or fills it where it has not been shown.
    pub fn update(&mut self, old_data: &T, data: &T, env: &Env, ids: &mut IdSource) -> (changed:
        bool)
        requires
            old(self).und.wf(),
        ensures
            final(self).und.wf(),
            Self::update_post(old(self), old_data, data, env, old(ids), final(self), final(ids), changed),
    {
        if self.shown {
            self.und.update(old_data, data, env, ids)
        } else {
            self.und.content_added(data, env, ids);
            self.shown = true;
            true
        }
    }
}

/// One of two sets, chosen by a predicate over the data. Before the first
/// round neither is chosen and the set is empty.
pub struct ConditionalContent<T, W, Aug, P, CT, CF> {
    pub condition: P,
    pub true_br: CondBranch<T, W, Aug, CT>,
    pub false_br: CondBranch<T, W, Aug, CF>,
    pub current: Option<bool>,
}

impl<T: Data, W: Widget<T>, Aug, P: Fn(&T, &Env) -> bool, CT: Content<T, W, Aug>> ConditionalContent<
    T,
    W,
    Aug,
    P,
    CT,
    StaticContent<T, W, Aug>,
> {
    /// A set that shows `content_true` while the predicate holds, and
    /// nothing otherwise.
    pub fn new_if(cond: P, content_true: CT) -> (r: Self)
        requires
            forall|d: &T, e: &Env| call_requires(cond, (d, e)),
            content_true.wf(),
        ensures
            r.wf(),
            r.condition == cond,
            r.true_br.und == content_true,
            r.false_br.und.children() == Seq::<EnsuredPod<T, W, Aug>>::empty(),
            r.current is None,
            !r.true_br.shown,
            !r.false_br.shown,
    {
        ConditionalContent {
            condition: cond,
            true_br: CondBranch::new(content_true),
            false_br: CondBranch::new(StaticContent::empty()),
            current: None,
        }
    }
}

impl<
    T: Data,
    W: Widget<T>,
    Aug,
    P: Fn(&T, &Env) -> bool,
    CT: Content<T, W, Aug>,
    CF: Content<T, W, Aug>,
> ConditionalContent<T, W, Aug, P, CT, CF> {
    /// A set that shows `content_true` while the predicate holds and
    /// `content_false` while it does not.
    pub fn new_if_else(cond: P, content_true: CT, content_false: CF) -> (r: Self)
        requires
            forall|d: &T, e: &Env| call_requires(cond, (d, e)),
            content_true.wf(),
            content_false.wf(),
        ensures
            r.wf(),
            r.condition == cond,
            r.true_br.und == content_true,
            r.false_br.und == content_false,
            r.current is None,
            !r.true_br.shown,
            !r.false_br.shown,
    {
        ConditionalContent {
            condition: cond,
            true_br: CondBranch::new(content_true),
            false_br: CondBranch::new(content_false),
            current: None,
        }
    }

    /// What choosing `side` anew does: that branch is filled again, the other
    /// stays as it is.
    pub open spec fn switched(
        pre: &Self,
        side: bool,
        data: &T,
        env: &Env,
        ids0: &IdSource,
        post: &Self,
        ids1: &IdSource,
    ) -> bool {
        &&& post.condition == pre.condition
        &&& post.current == Some(side)
        &&& if side {
            &&& CondBranch::added_post(&pre.true_br, data, env, ids0, &post.true_br, ids1)
            &&& post.false_br == pre.false_br
        } else {
            &&& CondBranch::added_post(&pre.false_br, data, env, ids0, &post.false_br, ids1)
            &&& post.true_br == pre.true_br
        }
    }

    /// What updating the chosen branch does; with no branch chosen, nothing.
    pub open spec fn branch_updated(
        pre: &Self,
        old_data: &T,
        data: &T,
        env: &Env,
        ids0: &IdSource,
        post: &Self,
        ids1: &IdSource,
        changed: bool,
    ) -> bool {
        &&& post.condition == pre.condition
        &&& post.current == pre.current
        &&& match pre.current {
            Some(true) => {
                &&& CondBranch::update_post(
                    &pre.true_br,
                    old_data,
                    data,
                    env,
                    ids0,
                    &post.true_br,
                    ids1,
                    changed,
                )
                &&& post.false_br == pre.false_br
            },
            Some(false) => {
                &&& CondBranch::update_post(
                    &pre.false_br,
                    old_data,
                    data,
                    env,
                    ids0,
                    &post.false_br,
                    ids1,
                    changed,
                )
                &&& post.true_br == pre.true_br
            },
            None => post.true_br == pre.true_br && post.false_br == pre.false_br && *ids1 == *ids0
                && !changed,
        }
    }

    fn switch_to(&mut self, side: bool, data: &T, env: &Env, ids: &mut IdSource)
        requires
            old(self).wf(),
        ensures
            final(self).wf(),
            Self::switched(old(self), side, data, env, old(ids), final(self), final(ids)),
    {
        self.current = Some(side);
        if side {
            self.true_br.content_added(data, env, ids);
        } else {
            self.false_br.content_added(data, env, ids);
        }
    }

    fn update_branch(&mut self, old_data: &T, data: &T, env: &Env, ids: &mut IdSource) -> (changed:
        bool)
        requires
            old(self).wf(),
        ensures
            final(self).wf(),
            Self::branch_updated(old(self), old_data, data, env, old(ids), final(self), final(ids), changed),
    {
        match self.current {
            Some(true) => self.true_br.update(old_data, data, env, ids),
            Some(false) => self.false_br.update(old_data, data, env, ids),
            None => false,
        }
    }
}

impl<
    T: Data,
    W: Widget<T>,
    Aug,
    P: Fn(&T, &Env) -> bool,
    CT: Content<T, W, Aug>,
    CF: Content<T, W, Aug>,
> Content<T, W, Aug> for ConditionalContent<T, W, Aug, P, CT, CF> {
    open spec fn wf(&self) -> bool {
        &&& forall|d: &T, e: &Env| call_requires(self.condition, (d, e))
        &&& self.true_br.und.wf()
        &&& self.false_br.und.wf()
        &&& self.current == Some(true) ==> self.true_br.shown
        &&& self.current == Some(false) ==> self.false_br.shown
    }

    open spec fn children(&self) -> Seq<EnsuredPod<T, W, Aug>> {
        match self.current {
            Some(true) => self.true_br.und.children(),
            Some(false) => self.false_br.und.children(),
            None => Seq::empty(),
        }
    }

    open spec fn accepts_children(&self) -> bool {
        false
    }

    open spec fn added_post(
        pre: &Self,
        data: &T,
        env: &Env,
        ids0: &IdSource,
        post: &Self,
        ids1: &IdSource,
    ) -> bool {
        &&& post.current is Some
        &&& call_ensures(pre.condition, (data, env), post.current->0)
        &&& Self::switched(pre, post.current->0, data, env, ids0, post, ids1)
    }

    open spec fn update_post(
        pre: &Self,
        old_data: &T,
        data: &T,
        env: &Env,
        ids0: &IdSource,
        post: &Self,
        ids1: &IdSource,
        changed: bool,
    ) -> bool {
        if old_data.same_spec(data) {
            Self::branch_updated(pre, old_data, data, env, ids0, post, ids1, changed)
        } else {
            &&& post.current is Some
            &&& call_ensures(pre.condition, (data, env), post.current->0)
            &&& if pre.current == post.current {
                Self::branch_updated(pre, old_data, data, env, ids0, post, ids1, changed)
            } else {
                changed && Self::switched(pre, post.current->0, data, env, ids0, post, ids1)
            }
        }
    }

    open spec fn child_replaced(
        pre: &Self,
        idx: int,
        child: EnsuredPod<T, W, Aug>,
        post: &Self,
    ) -> bool {
        &&& post.condition == pre.condition
        &&& post.current == pre.current
        &&& post.true_br.shown == pre.true_br.shown
        &&& post.false_br.shown == pre.false_br.shown
        &&& match pre.current {
            Some(true) => CT::child_replaced(&pre.true_br.und, idx, child, &post.true_br.und)
                && post.false_br == pre.false_br,
            Some(false) => CF::child_replaced(&pre.false_br.und, idx, child, &post.false_br.und)
                && post.true_br == pre.true_br,
            None => false,
        }
    }

    open spec fn children_replaced(
        pre: &Self,
        children: Seq<EnsuredPod<T, W, Aug>>,
        post: &Self,
    ) -> bool {
        &&& post.condition == pre.condition
        &&& post.current == pre.current
        &&& post.true_br.shown == pre.true_br.shown
        &&& post.false_br.shown == pre.false_br.shown
        &&& match pre.current {
            Some(true) => CT::children_replaced(&pre.true_br.und, children, &post.true_br.und)
                && post.false_br == pre.false_br,
            Some(false) => CF::children_replaced(&pre.false_br.und, children, &post.false_br.und)
                && post.true_br == pre.true_br,
            None => children.len() == 0 && post.true_br == pre.true_br && post.false_br
                == pre.false_br,
        }
    }

    proof fn lemma_replaced_none(&self) {
        self.true_br.und.lemma_replaced_none();
        self.false_br.und.lemma_replaced_none();
    }

    proof fn lemma_replaced_more(
        first: &Self,
        children: Seq<EnsuredPod<T, W, Aug>>,
        then: &Self,
        idx: int,
        child: EnsuredPod<T, W, Aug>,
        last: &Self,
    ) {
        match first.current {
            Some(true) => {
                CT::lemma_replaced_more(
                    &first.true_br.und,
                    children,
                    &then.true_br.und,
                    idx,
                    child,
                    &last.true_br.und,
                );
            },
            Some(false) => {
                CF::lemma_replaced_more(
                    &first.false_br.und,
                    children,
                    &then.false_br.und,
                    idx,
                    child,
                    &last.false_br.und,
                );
            },
            None => {},
        }
    }

    proof fn lemma_replaced_children(
        pre: &Self,
        children: Seq<EnsuredPod<T, W, Aug>>,
        post: &Self,
    ) {
        match pre.current {
            Some(true) => {
                CT::lemma_replaced_children(&pre.true_br.und, children, &post.true_br.und);
            },
            Some(false) => {
                CF::lemma_replaced_children(&pre.false_br.und, children, &post.false_br.und);
            },
            None => {
                assert(post.children() =~= children);
            },
        }
    }

    proof fn lemma_children_wf(&self) {
        self.true_br.und.lemma_children_wf();
        self.false_br.und.lemma_children_wf();
    }

    proof fn lemma_child_replaced(pre: &Self, idx: int, child: EnsuredPod<T, W, Aug>, post: &Self) {
        match pre.current {
            Some(true) => {
                CT::lemma_child_replaced(&pre.true_br.und, idx, child, &post.true_br.und);
            },
            Some(false) => {
                CF::lemma_child_replaced(&pre.false_br.und, idx, child, &post.false_br.und);
            },
            None => {},
        }
    }

    fn add_child_widget(&mut self, cw: EnsuredPod<T, W, Aug>) -> (accepted: bool) {
        false
    }

    fn content_added(&mut self, data: &T, env: &Env, ids: &mut IdSource) {
        let side = (self.condition)(data, env);
        self.switch_to(side, data, env, ids);
    }

    fn update(&mut self, old_data: &T, data: &T, env: &Env, ids: &mut IdSource) -> (changed: bool) {
        if old_data.same(data) {
            return self.update_branch(old_data, data, env, ids);
        }
        let side = (self.condition)(data, env);
        let stays = match self.current {
            Some(now) => now == side,
            None => false,
        };
        if stays {
            self.update_branch(old_data, data, env, ids)
        } else {
            self.switch_to(side, data, env, ids);
            true
        }
    }

    fn has_child(&self, idx: usize) -> (r: bool) {
        match self.current {
            Some(true) => self.true_br.und.has_child(idx),
            Some(false) => self.false_br.und.has_child(idx),
            None => false,
        }
    }

    fn child_mut(&mut self, idx: usize) -> (r: Option<&mut EnsuredPod<T, W, Aug>>) {
        match self.current {
            Some(true) => self.true_br.und.child_mut(idx),
            Some(false) => self.false_br.und.child_mut(idx),
            None => None,
        }
    }

    fn last_child(&self) -> (r: Option<&EnsuredPod<T, W, Aug>>) {
        match self.current {
            Some(true) => self.true_br.und.last_child(),
            Some(false) => self.false_br.und.last_child(),
            None => None,
        }
    }

    fn len(&self) -> (r: usize) {
        match self.current {
            Some(true) => self.true_br.und.len(),
            Some(false) => self.false_br.und.len(),
            None => 0,
        }
    }

    fn is_empty(&self) -> (r: bool) {
        match self.current {
            Some(true) => self.true_br.und.is_empty(),
            Some(false) => self.false_br.und.is_empty(),
            None => true,
        }
    }
}

} // verus!
