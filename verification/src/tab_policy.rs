//! How a tab container derives its tabs from data, and the state that its
//! parts share.

use vstd::prelude::*;
use std::marker::PhantomData;
use crate::context::Env;
use crate::data::{Data, DataList};
use crate::lens::Lens;
use crate::scope::{ScopePolicy, ScopeTransfer};
use crate::label::Label;
use crate::widget::Widget;

verus! {

/// How a tab presents itself in the bar.
#[derive(Debug)]
pub struct TabInfo {
    pub name: String,
    pub can_close: bool,
}

impl TabInfo {
    pub fn new(name: String, can_close: bool) -> (r: Self)
        ensures
            r.name == name,
            r.can_close == can_close,
    {
        TabInfo { name, can_close }
    }
}

/// A policy that derives the tabs of a tab container from its data.
///
/// `tabs` gives a descriptor of the set of tabs that is cheap to make and
/// to compare. The keys of a set are the stable identities of its tabs, in
/// the order in which they are shown.
pub trait TabsFromData: Data {
    /// The data that the tabs are derived from, and that every body works on.
    type T: Data;

    /// The widget of a tab body.
    type BodyWidget: Widget<Self::T>;

    /// What the policy is built from.
    type Build;

    /// The descriptor of the set of tabs for `data`.
    spec fn tabs_spec(&self, data: &Self::T) -> u64;

    /// What `tabs_changed` answers.
    spec fn changed_spec(&self, old_data: &Self::T, data: &Self::T) -> Option<u64>;

    /// The keys of the set, in order.
    spec fn keys_spec(&self, set: u64, data: &Self::T) -> Seq<u64>;

    /// What `info_from_key` may return.
    spec fn info_post(&self, key: u64, data: &Self::T, info: TabInfo) -> bool;

    /// What `body_from_key` may return.
    spec fn body_post(&self, key: u64, data: &Self::T, body: Option<Self::BodyWidget>) -> bool;

    /// The data once the tab of `key` is closed.
    spec fn closed_spec(&self, key: u64, data: Self::T) -> Self::T;

    /// What `build` accepts.
    spec fn build_wf(build: &Self::Build) -> bool;

    /// What `build` may return.
    spec fn build_post(build: Self::Build, policy: Self, bodies: Seq<(u64, Self::BodyWidget)>) -> bool;

    fn tabs(&self, data: &Self::T) -> (r: u64)
        ensures
            r == self.tabs_spec(data),
    ;

    /// The new set of tabs where it differs from the old one; `None` lets
    /// the container skip the work.
    fn tabs_changed(&self, old_data: &Self::T, data: &Self::T) -> (r: Option<u64>)
        ensures
            r == self.changed_spec(old_data, data),
    ;

    fn keys_from_set(&self, set: u64, data: &Self::T) -> (r: Vec<u64>)
        ensures
            r@ == self.keys_spec(set, data),
    ;

    fn info_from_key(&self, key: u64, data: &Self::T) -> (r: TabInfo)
        ensures
            self.info_post(key, data, r),
    ;

    /// The body for the tab of `key`; `None` where none can be made.
    fn body_from_key(&self, key: u64, data: &Self::T) -> (r: Option<Self::BodyWidget>)
        ensures
            self.body_post(key, data, r),
            r is Some ==> r->0.wf(),
    ;

    fn close_tab(&self, key: u64, data: &mut Self::T)
        ensures
            *final(data) == self.closed_spec(key, *old(data)),
    ;

    /// The policy, and the bodies that were given with it, each under the
    /// key of its tab.
    fn build(build: Self::Build) -> (r: (Self, Vec<(u64, Self::BodyWidget)>))
        requires
            Self::build_wf(&build),
        ensures
            Self::build_post(build, r.0, r.1@),
            crate::keyed::distinct(crate::keyed::keys_of(r.1@)),
            forall|i: int| 0 <= i < r.1@.len() ==> (#[trigger] r.1@[i]).1.wf(),
    ;
}

/// The descriptor of the new set where it differs from the old: what
/// `tabs_changed` answers for a policy that has no shortcut.
pub open spec fn spec_default_changed<TFD: TabsFromData>(
    policy: &TFD,
    old_data: &TFD::T,
    data: &TFD::T,
) -> Option<u64> {
    if policy.tabs_spec(data) != policy.tabs_spec(old_data) {
        Some(policy.tabs_spec(data))
    } else {
        None
    }
}

/// Compares the descriptors of the old and the new set of tabs.
pub fn default_tabs_changed<TFD: TabsFromData>(policy: &TFD, old_data: &TFD::T, data: &TFD::T) -> (r:
    Option<u64>)
    ensures
        r == spec_default_changed(policy, old_data, data),
{
    let cur = policy.tabs(data);
    if cur != policy.tabs(old_data) {
        Some(cur)
    } else {
        None
    }
}

/// The key of a tab that was given when the container was built: its place.
#[derive(Clone, Copy, Debug, PartialEq, Eq, Hash, Structural)]
pub struct STabKey(pub usize);

impl STabKey {
    pub fn key(self) -> (r: u64)
        ensures
            r == self.0 as u64,
    {
        self.0 as u64
    }
}

/// A tab as it is given when the container is built: a name and a body.
pub struct InitialTab<W> {
    pub name: String,
    pub child: W,
}

impl<W> InitialTab<W> {
    pub fn new(name: String, child: W) -> (r: Self)
        ensures
            r.name == name,
            r.child == child,
    {
        InitialTab { name, child }
    }
}

/// The policy of a container whose tabs are given when it is built and
/// never change: it keeps their names.
pub struct StaticTabs<T, W> {
    pub names: DataList<String>,
    pub phantom: PhantomData<(T, W)>,
}

impl<T, W> StaticTabs<T, W> {
    /// A policy without tabs.
    pub fn new() -> (r: Self)
        ensures
            r.names@ == Seq::<String>::empty(),
    {
        StaticTabs { names: DataList::new(), phantom: PhantomData }
    }

    /// The keys of `n` tabs: their places.
    pub open spec fn spec_places(n: nat) -> Seq<u64> {
        Seq::new(n, |i: int| i as u64)
    }
}

impl<T: Data, W: Widget<T>> Data for StaticTabs<T, W> {
    open spec fn same_spec(&self, other: &Self) -> bool {
        true
    }

    /// The tabs cannot change once the policy is built, so there is nothing
    /// to compare.
    fn same(&self, other: &Self) -> (r: bool) {
        true
    }

    fn duplicate(&self) -> (r: Self) {
        StaticTabs { names: self.names.duplicate(), phantom: PhantomData }
    }
}

/// The names of the tabs, in order.
pub open spec fn spec_names_from<W>(tabs: Seq<InitialTab<W>>) -> Seq<String> {
    Seq::new(tabs.len(), |i: int| tabs[i].name)
}

/// The bodies of the tabs, each under the place of its tab.
pub open spec fn spec_bodies_from<W>(tabs: Seq<InitialTab<W>>) -> Seq<(u64, W)> {
    Seq::new(tabs.len(), |i: int| (i as u64, tabs[i].child))
}

impl<T: Data, W: Widget<T>> TabsFromData for StaticTabs<T, W> {
    type T = T;

    type BodyWidget = W;

    type Build = Vec<InitialTab<W>>;

    open spec fn tabs_spec(&self, data: &T) -> u64 {
        0
    }

    open spec fn changed_spec(&self, old_data: &T, data: &T) -> Option<u64> {
        None
    }

    open spec fn keys_spec(&self, set: u64, data: &T) -> Seq<u64> {
        Self::spec_places(crate::data::spec_cap(self.names@.len()) as nat)
    }

    /// A tab shows the name it was given and cannot be closed. A key that
    /// is not the place of a tab has the empty name.
    open spec fn info_post(&self, key: u64, data: &T, info: TabInfo) -> bool {
        &&& !info.can_close
        &&& if key < self.names@.len() {
            info.name == self.names@[key as int]
        } else {
            info.name@ == Seq::<char>::empty()
        }
    }

    /// The bodies were given when the container was built; none is made later.
    open spec fn body_post(&self, key: u64, data: &T, body: Option<W>) -> bool {
        body is None
    }

    open spec fn closed_spec(&self, key: u64, data: T) -> T {
        data
    }

    open spec fn build_wf(build: &Vec<InitialTab<W>>) -> bool {
        forall|i: int| 0 <= i < build@.len() ==> (#[trigger] build@[i]).child.wf()
    }

    open spec fn build_post(build: Vec<InitialTab<W>>, policy: Self, bodies: Seq<(u64, W)>) -> bool {
        &&& policy.names@ == spec_names_from(build@)
        &&& bodies == spec_bodies_from(build@)
    }

    fn tabs(&self, data: &T) -> (r: u64) {
        0
    }

    fn tabs_changed(&self, old_data: &T, data: &T) -> (r: Option<u64>) {
        None
    }

    fn keys_from_set(&self, set: u64, data: &T) -> (r: Vec<u64>) {
        let n = self.names.len();
        let mut keys: Vec<u64> = Vec::new();
        let mut i: usize = 0;
        while i < n
            invariant
                i <= n,
                keys@ == Self::spec_places(i as nat),
            decreases n - i,
        {
            keys.push(STabKey(i).key());
            assert(keys@ =~= Self::spec_places((i + 1) as nat));
            i += 1;
        }
        keys
    }

    fn info_from_key(&self, key: u64, data: &T) -> (r: TabInfo) {
        match self.names.get(key) {
            Some(name) => TabInfo::new(name.clone(), false),
            None => TabInfo::new(String::new(), false),
        }
    }

    fn body_from_key(&self, key: u64, data: &T) -> (r: Option<W>) {
        None
    }

    fn close_tab(&self, key: u64, data: &mut T) {
    }

    fn build(build: Vec<InitialTab<W>>) -> (r: (Self, Vec<(u64, W)>)) {
        let mut rest = build;
        let mut names: DataList<String> = DataList::new();
        let mut bodies: Vec<(u64, W)> = Vec::new();
        let ghost all = build@;
        while rest.len() > 0
            invariant
                bodies.len() + rest.len() == all.len(),
                rest@ == all.skip(bodies.len() as int),
                names@ == spec_names_from(all.take(bodies.len() as int)),
                bodies@ == spec_bodies_from(all.take(bodies.len() as int)),
                forall|i: int| 0 <= i < all.len() ==> (#[trigger] all[i]).child.wf(),
            decreases rest.len(),
        {
            let ghost done = bodies.len() as int;
            let tab = rest.remove(0);
            assert(tab == all[done]);
            assert(rest@ =~= all.skip(done + 1));
            let place = bodies.len() as u64;
            names = names.push_back(tab.name);
            bodies.push((place, tab.child));
            assert(names@ =~= spec_names_from(all.take(done + 1)));
            assert(bodies@ =~= spec_bodies_from(all.take(done + 1)));
        }
        assert(all.take(all.len() as int) =~= all);
        assert forall|i: int, j: int|
            0 <= i < j < crate::keyed::keys_of(bodies@).len() implies crate::keyed::keys_of(
            bodies@,
        )[i] != crate::keyed::keys_of(bodies@)[j] by {
            assert(bodies@[i].0 == i as u64);
            assert(bodies@[j].0 == j as u64);
        }
        (StaticTabs { names, phantom: PhantomData }, bodies)
    }
}

/// A policy that can be given tabs one by one while the container is built.
pub trait AddTab: TabsFromData {
    /// What `add_tab` makes of `tabs`.
    spec fn added_spec(
        before: &Self::Build,
        name: String,
        child: Self::BodyWidget,
        after: &Self::Build,
    ) -> bool;

    fn add_tab(tabs: &mut Self::Build, name: String, child: Self::BodyWidget)
        requires
            Self::build_wf(old(tabs)),
            child.wf(),
        ensures
            Self::build_wf(final(tabs)),
            Self::added_spec(old(tabs), name, child, final(tabs)),
    ;
}

impl<T: Data, W: Widget<T>> AddTab for StaticTabs<T, W> {
    open spec fn added_spec(
        before: &Vec<InitialTab<W>>,
        name: String,
        child: W,
        after: &Vec<InitialTab<W>>,
    ) -> bool {
        after@ == before@.push(InitialTab { name, child })
    }

    fn add_tab(tabs: &mut Vec<InitialTab<W>>, name: String, child: W) {
        tabs.push(InitialTab::new(name, child));
    }
}

/// The state that the parts of a tab container share: the data, the place
/// of the selected tab, and the policy.
pub struct TabsState<TFD: TabsFromData> {
    pub inner: TFD::T,
    pub selected: usize,
    pub tabs_from_data: TFD,
}

impl<TFD: TabsFromData> TabsState<TFD> {
    pub fn new(inner: TFD::T, selected: usize, tabs_from_data: TFD) -> (r: Self)
        ensures
            r.inner == inner,
            r.selected == selected,
            r.tabs_from_data == tabs_from_data,
    {
        TabsState { inner, selected, tabs_from_data }
    }

    /// The keys of the tabs, in order.
    pub open spec fn spec_keys(&self) -> Seq<u64> {
        self.tabs_from_data.keys_spec(self.tabs_from_data.tabs_spec(&self.inner), &self.inner)
    }

    /// The selected place is the place of a tab, where there is any tab.
    pub open spec fn selection_valid(&self) -> bool {
        self.spec_keys().len() > 0 ==> self.selected < self.spec_keys().len()
    }

    /// The keys of the tabs, in order.
    pub fn keys(&self) -> (r: Vec<u64>)
        ensures
            r@ == self.spec_keys(),
    {
        let set = self.tabs_from_data.tabs(&self.inner);
        self.tabs_from_data.keys_from_set(set, &self.inner)
    }
}

impl<TFD: TabsFromData> Data for TabsState<TFD> {
    open spec fn same_spec(&self, other: &Self) -> bool {
        &&& self.inner.same_spec(&other.inner)
        &&& self.selected == other.selected
        &&& self.tabs_from_data.same_spec(&other.tabs_from_data)
    }

    fn same(&self, other: &Self) -> (r: bool) {
        self.inner.same(&other.inner) && self.selected == other.selected
            && self.tabs_from_data.same(&other.tabs_from_data)
    }

    fn duplicate(&self) -> (r: Self) {
        TabsState {
            inner: self.inner.duplicate(),
            selected: self.selected,
            tabs_from_data: self.tabs_from_data.duplicate(),
        }
    }
}

/// The lens onto the data inside the state of a tab container.
#[derive(Clone, Copy, Debug)]
pub struct InnerLens;

impl<TFD: TabsFromData> Lens<TabsState<TFD>, TFD::T> for InnerLens {
    open spec fn get_spec(&self, outer: &TabsState<TFD>) -> TFD::T {
        outer.inner
    }

    open spec fn put_spec(&self, outer: TabsState<TFD>, inner: TFD::T) -> TabsState<TFD> {
        TabsState { inner, ..outer }
    }

    proof fn lemma_get_put(&self, outer: TabsState<TFD>) {
    }

    proof fn lemma_put_get(&self, outer: TabsState<TFD>, inner: TFD::T) {
    }

    fn get<'a>(&self, outer: &'a TabsState<TFD>) -> (r: &'a TFD::T) {
        &outer.inner
    }

    fn get_mut<'a>(&self, outer: &'a mut TabsState<TFD>) -> (r: &'a mut TFD::T) {
        &mut outer.inner
    }
}

/// The lens onto the selected place inside the state of a tab container.
#[derive(Clone, Copy, Debug)]
pub struct SelectedLens;

impl<TFD: TabsFromData> Lens<TabsState<TFD>, usize> for SelectedLens {
    open spec fn get_spec(&self, outer: &TabsState<TFD>) -> usize {
        outer.selected
    }

    open spec fn put_spec(&self, outer: TabsState<TFD>, inner: usize) -> TabsState<TFD> {
        TabsState { selected: inner, ..outer }
    }

    proof fn lemma_get_put(&self, outer: TabsState<TFD>) {
    }

    proof fn lemma_put_get(&self, outer: TabsState<TFD>, inner: usize) {
    }

    fn get<'a>(&self, outer: &'a TabsState<TFD>) -> (r: &'a usize) {
        &outer.selected
    }

    fn get_mut<'a>(&self, outer: &'a mut TabsState<TFD>) -> (r: &'a mut usize) {
        &mut outer.selected
    }
}

/// The transfer of a tab container: the data goes in and out of the state,
/// and the selected place is held to the tabs there are.
pub struct TabsTransfer<TFD> {
    pub phantom: PhantomData<TFD>,
}

impl<TFD: TabsFromData> TabsTransfer<TFD> {
    pub fn new() -> (r: Self) {
        TabsTransfer { phantom: PhantomData }
    }

    /// The selected place held to `count` tabs: the place of the last tab
    /// where it lay beyond.
    pub open spec fn spec_clamped(selected: usize, count: nat) -> usize {
        if count > 0 && selected >= count {
            (count - 1) as usize
        } else {
            selected
        }
    }
}

impl<TFD: TabsFromData> ScopeTransfer for TabsTransfer<TFD> {
    type In = TFD::T;

    type State = TabsState<TFD>;

    open spec fn read_spec(&self, state: TabsState<TFD>, input: &TFD::T, env: &Env) -> TabsState<
        TFD,
    > {
        if state.inner.same_spec(input) {
            state
        } else {
            TabsState { inner: *input, ..state }
        }
    }

    open spec fn write_back_spec(&self, state: &TabsState<TFD>, input: TFD::T) -> TFD::T {
        if state.inner.same_spec(&input) {
            input
        } else {
            state.inner
        }
    }

    open spec fn computed_spec(
        &self,
        old_state: &TabsState<TFD>,
        state: TabsState<TFD>,
        env: &Env,
    ) -> (TabsState<TFD>, bool) {
        let held = Self::spec_clamped(state.selected, state.spec_keys().len());
        (TabsState { selected: held, ..state }, held != state.selected)
    }

    proof fn lemma_write_back_idempotent(&self, state: &TabsState<TFD>, input: TFD::T) {
    }

    fn read_input(&self, state: &mut TabsState<TFD>, input: &TFD::T, env: &Env) {
        if !state.inner.same(input) {
            state.inner = input.duplicate();
        }
    }

    fn write_back_input(&self, state: &TabsState<TFD>, input: &mut TFD::T) {
        if !state.inner.same(input) {
            *input = state.inner.duplicate();
        }
    }

    fn update_computed(&self, old_state: &TabsState<TFD>, state: &mut TabsState<TFD>, env: &Env) -> (changed:
        bool) {
        let count = state.keys().len();
        if count > 0 && state.selected >= count {
            state.selected = count - 1;
            true
        } else {
            false
        }
    }
}

/// Once the computed parts of the state are up to date, the selected place
/// is the place of a tab, however many tabs the data took away: where the
/// place lay beyond the last tab it is now the place of the last tab, and
/// otherwise it is what it was. The data and the policy stay as they are.
pub proof fn lemma_selection_held<TFD: TabsFromData>(
    transfer: &TabsTransfer<TFD>,
    old_state: &TabsState<TFD>,
    state: TabsState<TFD>,
    env: &Env,
)
    ensures
        ({
            let after = transfer.computed_spec(old_state, state, env).0;
            &&& after.selection_valid()
            &&& after.inner == state.inner
            &&& after.tabs_from_data == state.tabs_from_data
            &&& state.selection_valid() ==> after == state
            &&& !state.selection_valid() ==> after.selected == state.spec_keys().len() - 1
        }),
{
}

/// The policy of the scope inside a tab container: it puts the data, the
/// selected place and the tab policy together into the state.
pub struct TabsScopePolicy<TFD> {
    pub tabs_from_data: TFD,
    pub selected: usize,
}

impl<TFD> TabsScopePolicy<TFD> {
    pub fn new(tabs_from_data: TFD, selected: usize) -> (r: Self)
        ensures
            r.tabs_from_data == tabs_from_data,
            r.selected == selected,
    {
        TabsScopePolicy { tabs_from_data, selected }
    }
}

impl<TFD: TabsFromData> ScopePolicy for TabsScopePolicy<TFD> {
    type In = TFD::T;

    type State = TabsState<TFD>;

    type Transfer = TabsTransfer<TFD>;

    open spec fn wf(&self) -> bool {
        true
    }

    open spec fn create_post(
        policy: Self,
        inner: &TFD::T,
        env: &Env,
        state: TabsState<TFD>,
        transfer: TabsTransfer<TFD>,
    ) -> bool {
        state == (TabsState {
            inner: *inner,
            selected: policy.selected,
            tabs_from_data: policy.tabs_from_data,
        })
    }

    fn create(self, inner: &TFD::T, env: &Env) -> (r: (TabsState<TFD>, TabsTransfer<TFD>)) {
        (TabsState::new(inner.duplicate(), self.selected, self.tabs_from_data), TabsTransfer::new())
    }
}

/// A policy for data that is the number of tabs: the tabs are numbered
/// from zero, each shows a label, and closing a tab takes the last one away.
#[derive(Clone, Copy, Debug, PartialEq, Eq, Structural)]
pub struct NumberedTabs;

impl Data for NumberedTabs {
    open spec fn same_spec(&self, other: &Self) -> bool {
        true
    }

    fn same(&self, other: &Self) -> (r: bool) {
        true
    }

    fn duplicate(&self) -> (r: Self) {
        NumberedTabs
    }
}

/// The keys from zero up to, not including, `n`.
pub open spec fn spec_numbers(n: u64) -> Seq<u64> {
    Seq::new(n as nat, |i: int| i as u64)
}

/// The name of every numbered tab.
pub open spec fn spec_numbered_name() -> Seq<char> {
    "Dynamic tab"@
}

/// The text of the body of every numbered tab.
pub open spec fn spec_numbered_body() -> Seq<char> {
    "Dynamic tab body"@
}

impl TabsFromData for NumberedTabs {
    type T = u64;

    type BodyWidget = Label;

    type Build = ();

    open spec fn tabs_spec(&self, data: &u64) -> u64 {
        *data
    }

    open spec fn changed_spec(&self, old_data: &u64, data: &u64) -> Option<u64> {
        if *old_data != *data {
            Some(*data)
        } else {
            None
        }
    }

    open spec fn keys_spec(&self, set: u64, data: &u64) -> Seq<u64> {
        spec_numbers(set)
    }

    open spec fn info_post(&self, key: u64, data: &u64, info: TabInfo) -> bool {
        info.can_close && info.name@ == spec_numbered_name()
    }

    open spec fn body_post(&self, key: u64, data: &u64, body: Option<Label>) -> bool {
        &&& body is Some
        &&& body->0.text@ == spec_numbered_body()
        &&& body->0.size == Label::spec_default_size()
    }

    open spec fn closed_spec(&self, key: u64, data: u64) -> u64 {
        if data > 0 {
            (data - 1) as u64
        } else {
            data
        }
    }

    open spec fn build_wf(build: &()) -> bool {
        true
    }

    open spec fn build_post(build: (), policy: Self, bodies: Seq<(u64, Label)>) -> bool {
        bodies.len() == 0
    }

    fn tabs(&self, data: &u64) -> (r: u64) {
        *data
    }

    fn tabs_changed(&self, old_data: &u64, data: &u64) -> (r: Option<u64>) {
        if *old_data != *data {
            Some(*data)
        } else {
            None
        }
    }

    fn keys_from_set(&self, set: u64, data: &u64) -> (r: Vec<u64>) {
        let mut keys: Vec<u64> = Vec::new();
        let mut i: u64 = 0;
        while i < set
            invariant
                i <= set,
                keys@ == spec_numbers(i),
            decreases set - i,
        {
            keys.push(i);
            assert(keys@ =~= spec_numbers((i + 1) as u64));
            i += 1;
        }
        keys
    }

    fn info_from_key(&self, key: u64, data: &u64) -> (r: TabInfo) {
        TabInfo::new("Dynamic tab".to_string(), true)
    }

    fn body_from_key(&self, key: u64, data: &u64) -> (r: Option<Label>) {
        Some(Label::new("Dynamic tab body".to_string()))
    }

    fn close_tab(&self, key: u64, data: &mut u64) {
        if *data > 0 {
            *data = *data - 1;
        }
    }

    fn build(build: ()) -> (r: (Self, Vec<(u64, Label)>)) {
        let bodies: Vec<(u64, Label)> = Vec::new();
        assert(crate::keyed::keys_of(bodies@) =~= Seq::<u64>::empty());
        (NumberedTabs, bodies)
    }
}

} // verus!
