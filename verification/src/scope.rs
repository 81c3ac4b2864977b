//! Scopes: a widget over a richer, private state that is derived from the
//! data of its surroundings and kept in step with it.

use vstd::prelude::*;
use std::marker::PhantomData;
use crate::context::{Env, EventCtx, LayoutCtx, LifeCycleCtx, PaintCtx, Requests, UpdateCtx};
use crate::data::{never_mistaken, Data};
use crate::event::{Event, IdSource, LifeCycle, WidgetId};
use crate::geometry::{BoxConstraints, Point, Size};
use crate::lens::Lens;
use crate::widget::{Pod, PodState, Widget};

verus! {

/// How a scope keeps its state in step with the input of its surroundings.
pub trait ScopeTransfer: Sized {
    /// The data that comes in from the surroundings.
    type In: Data;

    /// The data that the scope keeps.
    type State: Data;

    /// The state once the latest input has been taken in.
    spec fn read_spec(&self, state: Self::State, input: &Self::In, env: &Env) -> Self::State;

    /// The input once the state has been written back to it.
    spec fn write_back_spec(&self, state: &Self::State, input: Self::In) -> Self::In;

    /// The state once its computed parts are up to date, and whether anything
    /// changed.
    spec fn computed_spec(&self, old_state: &Self::State, state: Self::State, env: &Env) -> (
        Self::State,
        bool,
    );

    /// Writing back twice in a row is writing back once.
    proof fn lemma_write_back_idempotent(&self, state: &Self::State, input: Self::In)
        ensures
            self.write_back_spec(state, self.write_back_spec(state, input)) == self.write_back_spec(
                state,
                input,
            ),
    ;

    /// Takes the latest input into the state.
    fn read_input(&self, state: &mut Self::State, input: &Self::In, env: &Env)
        ensures
            *final(state) == self.read_spec(*old(state), input, env),
    ;

    /// Writes what the state holds of the input back to the input.
    fn write_back_input(&self, state: &Self::State, input: &mut Self::In)
        ensures
            *final(input) == self.write_back_spec(state, *old(input)),
    ;

    /// Brings the computed parts of the state up to date.
    fn update_computed(&self, old_state: &Self::State, state: &mut Self::State, env: &Env) -> (changed:
        bool)
        ensures
            (*final(state), changed) == self.computed_spec(old_state, *old(state), env),
    ;
}

/// How a scope comes by its first state and its transfer. A policy is used
/// up when the state is made.
pub trait ScopePolicy: Sized {
    type In: Data;

    type State: Data;

    type Transfer: ScopeTransfer<In = Self::In, State = Self::State>;

    /// What the policy needs to make a state.
    spec fn wf(&self) -> bool;

    /// What `create` may return.
    spec fn create_post(
        policy: Self,
        inner: &Self::In,
        env: &Env,
        state: Self::State,
        transfer: Self::Transfer,
    ) -> bool;

    /// Makes the first state from the input, and the transfer.
    fn create(self, inner: &Self::In, env: &Env) -> (r: (Self::State, Self::Transfer))
        requires
            self.wf(),
        ensures
            Self::create_post(self, inner, env, r.0, r.1),
    ;
}

/// A policy made of a function from the input to the first state, and a
/// transfer.
pub struct DefaultScopePolicy<F, Transfer> {
    pub make_state: F,
    pub transfer: Transfer,
}

impl<Transfer: ScopeTransfer, F: FnOnce(Transfer::In) -> Transfer::State> DefaultScopePolicy<
    F,
    Transfer,
> {
    pub fn new(make_state: F, transfer: Transfer) -> (r: Self)
        ensures
            r.make_state == make_state,
            r.transfer == transfer,
    {
        DefaultScopePolicy { make_state, transfer }
    }
}

impl<In: Data, State: Data, L: Lens<State, In>, F: FnOnce(In) -> State> DefaultScopePolicy<
    F,
    LensScopeTransfer<L, In, State>,
> {
    /// A policy from a function and a lens onto the part of the state that
    /// mirrors the input.
    pub fn from_lens(make_state: F, lens: L) -> (r: Self)
        ensures
            r.make_state == make_state,
            r.transfer.lens == lens,
    {
        DefaultScopePolicy { make_state, transfer: LensScopeTransfer::new(lens) }
    }
}

impl<Transfer: ScopeTransfer, F: FnOnce(Transfer::In) -> Transfer::State> ScopePolicy for DefaultScopePolicy<
    F,
    Transfer,
> {
    type In = Transfer::In;

    type State = Transfer::State;

    type Transfer = Transfer;

    open spec fn wf(&self) -> bool {
        forall|input: Transfer::In| call_requires(self.make_state, (input,))
    }

    open spec fn create_post(
        policy: Self,
        inner: &Self::In,
        env: &Env,
        state: Self::State,
        transfer: Self::Transfer,
    ) -> bool {
        call_ensures(policy.make_state, (*inner,), state) && transfer == policy.transfer
    }

    fn create(self, inner: &Self::In, env: &Env) -> (r: (Self::State, Self::Transfer)) {
        let state = (self.make_state)(inner.duplicate());
        (state, self.transfer)
    }
}

/// A transfer through a lens: the lens shows the part of the state that
/// mirrors the input.
pub struct LensScopeTransfer<L, In, State> {
    pub lens: L,
    pub phantom: PhantomData<(In, State)>,
}

impl<L, In, State> LensScopeTransfer<L, In, State> {
    pub fn new(lens: L) -> (r: Self)
        ensures
            r.lens == lens,
    {
        LensScopeTransfer { lens, phantom: PhantomData }
    }
}

impl<In: Data, State: Data, L: Lens<State, In>> ScopeTransfer for LensScopeTransfer<L, In, State> {
    type In = In;

    type State = State;

    open spec fn read_spec(&self, state: State, input: &In, env: &Env) -> State {
        if self.lens.get_spec(&state).same_spec(input) {
            state
        } else {
            self.lens.put_spec(state, *input)
        }
    }

    open spec fn write_back_spec(&self, state: &State, input: In) -> In {
        if self.lens.get_spec(state).same_spec(&input) {
            input
        } else {
            self.lens.get_spec(state)
        }
    }

    open spec fn computed_spec(&self, old_state: &State, state: State, env: &Env) -> (State, bool) {
        (state, false)
    }

    proof fn lemma_write_back_idempotent(&self, state: &State, input: In) {
    }

    fn read_input(&self, state: &mut State, input: &In, env: &Env) {
        proof {
            self.lens.lemma_get_put(*state);
        }
        let embedded = self.lens.get_mut(state);
        if !embedded.same(input) {
            *embedded = input.duplicate();
        }
    }

    fn write_back_input(&self, state: &State, input: &mut In) {
        let embedded = self.lens.get(state);
        if !embedded.same(input) {
            *input = embedded.duplicate();
        }
    }

    fn update_computed(&self, old_state: &State, state: &mut State, env: &Env) -> (changed: bool) {
        false
    }
}

/// A policy that is given its state and keeps it apart from the
/// surroundings: nothing is read in, nothing written back.
pub struct IsolatedScopePolicy<In, State> {
    pub state: Option<State>,
    pub phantom: PhantomData<In>,
}

impl<In, State> IsolatedScopePolicy<In, State> {
    pub fn new(state: State) -> (r: Self)
        ensures
            r.state == Some(state),
    {
        IsolatedScopePolicy { state: Some(state), phantom: PhantomData }
    }
}

impl<In: Data, State: Data> ScopePolicy for IsolatedScopePolicy<In, State> {
    type In = In;

    type State = State;

    type Transfer = Self;

    open spec fn wf(&self) -> bool {
        self.state is Some
    }

    open spec fn create_post(
        policy: Self,
        inner: &Self::In,
        env: &Env,
        state: Self::State,
        transfer: Self::Transfer,
    ) -> bool {
        policy.state == Some(state) && transfer.state is None
    }

    fn create(self, inner: &Self::In, env: &Env) -> (r: (Self::State, Self::Transfer)) {
        let mut this = self;
        let state = this.state.take().unwrap();
        (state, this)
    }
}

impl<In: Data, State: Data> ScopeTransfer for IsolatedScopePolicy<In, State> {
    type In = In;

    type State = State;

    open spec fn read_spec(&self, state: State, input: &In, env: &Env) -> State {
        state
    }

    open spec fn write_back_spec(&self, state: &State, input: In) -> In {
        input
    }

    open spec fn computed_spec(&self, old_state: &State, state: State, env: &Env) -> (State, bool) {
        (state, false)
    }

    proof fn lemma_write_back_idempotent(&self, state: &State, input: In) {
    }

    fn read_input(&self, state: &mut State, input: &In, env: &Env) {
    }

    fn write_back_input(&self, state: &State, input: &mut In) {
    }

    fn update_computed(&self, old_state: &State, state: &mut State, env: &Env) -> (changed: bool) {
        false
    }
}

/// What a scope holds: the policy until the state is first needed, the state
/// and the transfer from then on.
pub enum ScopeContent<SP: ScopePolicy> {
    Policy { policy: Option<SP> },
    Transfer { state: SP::State, transfer: SP::Transfer },
}

/// A widget over the input `SP::In` that runs an inner widget over the
/// state `SP::State`.
pub struct Scope<SP: ScopePolicy, W> {
    pub content: ScopeContent<SP>,
    pub inner: Pod<SP::State, W>,
}

impl<SP: ScopePolicy, W: Widget<SP::State>> Scope<SP, W> {
    /// A scope that makes its state on first use.
    pub fn new(ids: &mut IdSource, policy: SP, inner: W) -> (r: Self)
        requires
            policy.wf(),
            inner.wf(),
        ensures
            r.spec_wf(),
            r.content == (ScopeContent::<SP>::Policy { policy: Some(policy) }),
            r.inner.state == PodState::spec_initial(WidgetId(old(ids).next)),
            r.inner.old_data is None,
            r.inner.inner == inner,
            final(ids).next == IdSource::after_draw(old(ids).next),
    {
        Scope { content: ScopeContent::Policy { policy: Some(policy) }, inner: Pod::new(ids, inner) }
    }

    /// The invariant: the inner node is well-formed, and a scope that has
    /// not made its state still has a usable policy.
    pub open spec fn spec_wf(&self) -> bool {
        &&& self.inner.wf()
        &&& match self.content {
            ScopeContent::Policy { policy } => policy is Some && policy->0.wf(),
            ScopeContent::Transfer { .. } => true,
        }
    }

    /// The state, once it has been made.
    pub open spec fn spec_state(&self) -> Option<SP::State> {
        match self.content {
            ScopeContent::Policy { .. } => None,
            ScopeContent::Transfer { state, .. } => Some(state),
        }
    }

    /// The state, if it has been made.
    pub fn state(&self) -> (r: Option<&SP::State>)
        ensures
            match r {
                Some(s) => self.spec_state() == Some(*s),
                None => self.spec_state() is None,
            },
    {
        match &self.content {
            ScopeContent::Transfer { state, .. } => Some(state),
            ScopeContent::Policy { .. } => None,
        }
    }

    /// The state, if it has been made, to change it from outside.
    pub fn state_mut(&mut self) -> (r: Option<&mut SP::State>)
        ensures
            match r {
                Some(s) => {
                    &&& old(self).spec_state() == Some(*s)
                    &&& final(self).spec_state() == Some(*final(s))
                    &&& final(self).inner == old(self).inner
                    &&& final(self).content->transfer == old(self).content->transfer
                },
                None => old(self).spec_state() is None && *final(self) == *old(self),
            },
    {
        match &mut self.content {
            ScopeContent::Transfer { state, .. } => Some(state),
            ScopeContent::Policy { .. } => None,
        }
    }

    /// `state` and `transfer` are what the scope starts a phase with: those
    /// it holds, or those its policy makes on first use.
    pub open spec fn starts_with(
        pre: &Self,
        data: &SP::In,
        env: &Env,
        state: SP::State,
        transfer: SP::Transfer,
    ) -> bool {
        match pre.content {
            ScopeContent::Policy { policy } => policy is Some && SP::create_post(
                policy->0,
                data,
                env,
                state,
                transfer,
            ),
            ScopeContent::Transfer { state: s, transfer: t } => state == s && transfer == t,
        }
    }

    /// The state as the inner widget sees it in a phase: in an update pass
    /// of a scope that already has its state, the input is read in and the
    /// computed parts are brought up to date against the last snapshot.
    pub open spec fn spec_synced(
        pre: &Self,
        is_update: bool,
        data: &SP::In,
        env: &Env,
        state: SP::State,
        transfer: SP::Transfer,
    ) -> SP::State {
        if is_update && pre.content is Transfer {
            let read = transfer.read_spec(state, data, env);
            match pre.inner.old_data {
                Some(old) => transfer.computed_spec(&old, read, env).0,
                None => read,
            }
        } else {
            state
        }
    }

    /// `post` holds the state that a phase starting with `state` sees.
    pub open spec fn readied_from(
        pre: &Self,
        is_update: bool,
        data: &SP::In,
        env: &Env,
        state: SP::State,
        post: &Self,
    ) -> bool {
        &&& post.content is Transfer
        &&& Self::starts_with(pre, data, env, state, post.content->transfer)
        &&& post.content->state == Self::spec_synced(
            pre,
            is_update,
            data,
            env,
            state,
            post.content->transfer,
        )
    }

    /// What `with_state` and `with_state_mut` leave: a scope that has its
    /// state.
    pub open spec fn readied(
        pre: &Self,
        is_update: bool,
        data: &SP::In,
        env: &Env,
        post: &Self,
    ) -> bool {
        &&& post.inner == pre.inner
        &&& exists|state: SP::State| #[trigger]
            Self::readied_from(pre, is_update, data, env, state, post)
    }

    /// Makes sure that the scope has its state, for a phase that reads it.
    /// In an update pass the latest input is read in first.
    pub fn with_state(&mut self, is_update: bool, data: &SP::In, env: &Env)
        requires
            old(self).spec_wf(),
        ensures
            final(self).spec_wf(),
            Self::readied(old(self), is_update, data, env, final(self)),
    {
        let taken = match &mut self.content {
            ScopeContent::Policy { policy } => policy.take(),
            ScopeContent::Transfer { state, transfer } => {
                if is_update {
                    transfer.read_input(state, data, env);
                    match &self.inner.old_data {
                        Some(old_state) => {
                            transfer.update_computed(old_state, state, env);
                        },
                        None => {},
                    }
                }
                None
            },
        };
        match taken {
            Some(policy) => {
                let (state, transfer) = policy.create(data, env);
                self.content = ScopeContent::Transfer { state, transfer };
                proof {
                    assert(old(self).content is Policy);
                    assert(Self::starts_with(old(self), data, env, state, transfer));
                    assert(Self::readied_from(old(self), is_update, data, env, state, self));
                }
            },
            None => {
                proof {
                    assert(old(self).content is Transfer);
                    let state = old(self).content->state;
                    let transfer = old(self).content->transfer;
                    assert(self.content->transfer == transfer);
                    assert(Self::starts_with(old(self), data, env, state, transfer));
                    assert(Self::readied_from(old(self), is_update, data, env, state, self));
                }
            },
        }
    }

    /// Makes sure that the scope has its state, for a phase that may change it.
    pub fn with_state_mut(&mut self, data: &SP::In, env: &Env)
        requires
            old(self).spec_wf(),
        ensures
            final(self).spec_wf(),
            Self::readied(old(self), false, data, env, final(self)),
    {
        self.with_state(false, data, env)
    }

    /// Whether the state has moved away from the snapshot that the inner
    /// node holds, so that it has to be written back.
    pub open spec fn spec_diverged(&self) -> bool {
        match self.content {
            ScopeContent::Transfer { state, .. } => match self.inner.old_data {
                Some(old) => !old.same_spec(&state),
                None => true,
            },
            ScopeContent::Policy { .. } => false,
        }
    }

    /// The input after `update_computed_and_write_back`.
    pub open spec fn spec_written_back(&self, data: SP::In) -> SP::In {
        if self.spec_diverged() {
            self.content->transfer.write_back_spec(&self.content->state, data)
        } else {
            data
        }
    }

    /// Writes the state back to the input where it has moved away from the
    /// last snapshot. The answer says whether it has.
    pub fn update_computed_and_write_back(&mut self, data: &mut SP::In, env: &Env) -> (r: bool)
        ensures
            *final(self) == *old(self),
            r == old(self).spec_diverged(),
            *final(data) == old(self).spec_written_back(*old(data)),
    {
        match &self.content {
            ScopeContent::Transfer { state, transfer } => {
                let diverged = match &self.inner.old_data {
                    Some(old_state) => !old_state.same(state),
                    None => true,
                };
                if diverged {
                    transfer.write_back_input(state, data);
                }
                diverged
            },
            ScopeContent::Policy { .. } => false,
        }
    }
}

impl<Transfer: ScopeTransfer, F: FnOnce(Transfer::In) -> Transfer::State, W: Widget<
    Transfer::State,
>> Scope<DefaultScopePolicy<F, Transfer>, W> {
    /// A scope from a function that makes the state and a transfer that
    /// keeps it in step.
    pub fn from_function(ids: &mut IdSource, make_state: F, transfer: Transfer, inner: W) -> (r:
        Self)
        requires
            forall|input: Transfer::In| call_requires(make_state, (input,)),
            inner.wf(),
        ensures
            r.spec_wf(),
            r.content == (ScopeContent::<DefaultScopePolicy<F, Transfer>>::Policy {
                policy: Some(DefaultScopePolicy { make_state, transfer }),
            }),
            r.inner.state == PodState::spec_initial(WidgetId(old(ids).next)),
            r.inner.old_data is None,
            r.inner.inner == inner,
            final(ids).next == IdSource::after_draw(old(ids).next),
    {
        Self::new(ids, DefaultScopePolicy::new(make_state, transfer), inner)
    }
}

impl<In: Data, State: Data, L: Lens<State, In>, F: FnOnce(In) -> State, W: Widget<State>> Scope<
    DefaultScopePolicy<F, LensScopeTransfer<L, In, State>>,
    W,
> {
    /// A scope from a function that makes the state and a lens that shows
    /// where the state mirrors the input.
    pub fn from_lens(ids: &mut IdSource, make_state: F, lens: L, inner: W) -> (r: Self)
        requires
            forall|input: In| call_requires(make_state, (input,)),
            inner.wf(),
        ensures
            r.spec_wf(),
            r.content is Policy,
            r.content->policy is Some,
            r.content->policy->0.make_state == make_state,
            r.content->policy->0.transfer.lens == lens,
            r.inner.state == PodState::spec_initial(WidgetId(old(ids).next)),
            r.inner.old_data is None,
            r.inner.inner == inner,
            final(ids).next == IdSource::after_draw(old(ids).next),
    {
        Self::new(ids, DefaultScopePolicy::from_lens(make_state, lens), inner)
    }
}

impl<In: Data, State: Data, W: Widget<State>> Scope<IsolatedScopePolicy<In, State>, W> {
    /// A scope over a state of its own that is not kept in step with
    /// anything.
    pub fn isolate(ids: &mut IdSource, state: State, widget: W) -> (r: Self)
        requires
            widget.wf(),
        ensures
            r.spec_wf(),
            r.content is Policy,
            r.content->policy is Some,
            r.content->policy->0.state == Some(state),
            r.inner.state == PodState::spec_initial(WidgetId(old(ids).next)),
            r.inner.old_data is None,
            r.inner.inner == widget,
            final(ids).next == IdSource::after_draw(old(ids).next),
    {
        Self::new(ids, IsolatedScopePolicy::new(state), widget)
    }
}

impl<SP: ScopePolicy, W: Widget<SP::State>> Scope<SP, W> {
    /// One event phase, told with the state `start` that the scope started
    /// with and the context `mid` that the inner node left.
    pub open spec fn event_from(
        pre: &Self,
        ctx0: &EventCtx,
        event: &Event,
        data0: &SP::In,
        env: &Env,
        start: SP::State,
        mid: &EventCtx,
        post: &Self,
        ctx1: &EventCtx,
        data1: &SP::In,
    ) -> bool {
        &&& post.content is Transfer
        &&& Self::starts_with(pre, data0, env, start, post.content->transfer)
        &&& Pod::event_post(
            &pre.inner,
            ctx0,
            event,
            &post.content->transfer.read_spec(start, data0, env),
            env,
            &post.inner,
            mid,
            &post.content->state,
        )
        &&& *data1 == post.spec_written_back(*data0)
        &&& *ctx1 == (EventCtx { requests: Requests { update: true, ..mid.requests }, ..*mid })
    }

    /// One layout phase, told with the inner node `laid` as the layout left it.
    pub open spec fn layout_from(
        pre: &Self,
        ctx0: &LayoutCtx,
        bc: &BoxConstraints,
        data: &SP::In,
        env: &Env,
        laid: &Pod<SP::State, W>,
        post: &Self,
        ctx1: &LayoutCtx,
        size: Size,
    ) -> bool {
        &&& post.content is Transfer
        &&& Self::starts_with(pre, data, env, post.content->state, post.content->transfer)
        &&& Pod::layout_post(&pre.inner, ctx0, bc, &post.content->state, env, laid, ctx1, size)
        &&& post.inner == (Pod {
            state: PodState {
                layout_rect: laid.state.layout_rect.spec_with_origin(Point { x: 0, y: 0 }),
                ..laid.state
            },
            ..*laid
        })
    }
}

impl<SP: ScopePolicy, W: Widget<SP::State>> Widget<SP::In> for Scope<SP, W> {
    open spec fn wf(&self) -> bool {
        self.spec_wf()
    }

    /// The latest input is read into the state, the inner node handles the
    /// event over the state, the state is written back to the input, and an
    /// update pass is asked for.
    open spec fn event_post(
        pre: &Self,
        ctx0: &EventCtx,
        event: &Event,
        data0: &SP::In,
        env: &Env,
        post: &Self,
        ctx1: &EventCtx,
        data1: &SP::In,
    ) -> bool {
        exists|start: SP::State, mid: EventCtx| #[trigger]
            Self::event_from(pre, ctx0, event, data0, env, start, &mid, post, ctx1, data1)
    }

    /// The inner node takes the notice over the state, which a first use
    /// makes.
    open spec fn lifecycle_post(
        pre: &Self,
        ctx0: &LifeCycleCtx,
        event: &LifeCycle,
        data: &SP::In,
        env: &Env,
        post: &Self,
        ctx1: &LifeCycleCtx,
    ) -> bool {
        &&& post.content is Transfer
        &&& Self::starts_with(pre, data, env, post.content->state, post.content->transfer)
        &&& Pod::lifecycle_post(&pre.inner, ctx0, event, &post.content->state, env, &post.inner, ctx1)
    }

    /// The latest input is read into the state, and the inner node runs its
    /// update pass over the state.
    open spec fn update_post(
        pre: &Self,
        ctx0: &UpdateCtx,
        old_data: &SP::In,
        data: &SP::In,
        env: &Env,
        post: &Self,
        ctx1: &UpdateCtx,
    ) -> bool {
        &&& exists|start: SP::State| #[trigger] Self::readied_from(pre, true, data, env, start, post)
        &&& Pod::update_post(&pre.inner, ctx0, &post.content->state, env, &post.inner, ctx1)
    }

    /// The inner node is laid out over the state and placed at the origin.
    open spec fn layout_post(
        pre: &Self,
        ctx0: &LayoutCtx,
        bc: &BoxConstraints,
        data: &SP::In,
        env: &Env,
        post: &Self,
        ctx1: &LayoutCtx,
        size: Size,
    ) -> bool {
        exists|laid: Pod<SP::State, W>| #[trigger]
            Self::layout_from(pre, ctx0, bc, data, env, &laid, post, ctx1, size)
    }

    /// The inner node paints over the state, in the frame of the scope.
    open spec fn paint_post(
        pre: &Self,
        ctx0: &PaintCtx,
        data: &SP::In,
        env: &Env,
        post: &Self,
        ctx1: &PaintCtx,
    ) -> bool {
        &&& post.content is Transfer
        &&& Self::starts_with(pre, data, env, post.content->state, post.content->transfer)
        &&& Pod::paint_raw_post(&pre.inner, ctx0, &post.content->state, env, &post.inner, ctx1)
    }

    fn event(&mut self, ctx: &mut EventCtx, event: &Event, data: &mut SP::In, env: &Env) {
        self.with_state_mut(data, env);
        let ghost ready = *self;
        let ghost start = choose|state: SP::State|
            Self::readied_from(old(self), false, data, env, state, &ready);
        match &mut self.content {
            ScopeContent::Transfer { state, transfer } => {
                transfer.read_input(state, data, env);
                self.inner.event(ctx, event, state, env);
            },
            ScopeContent::Policy { .. } => {},
        }
        let ghost mid = *ctx;
        self.update_computed_and_write_back(data, env);
        ctx.request_update();
        proof {
            assert(Self::event_from(old(self), old(ctx), event, old(data), env, start, &mid, self, ctx, data));
        }
    }

    fn lifecycle(&mut self, ctx: &mut LifeCycleCtx, event: &LifeCycle, data: &SP::In, env: &Env) {
        self.with_state(false, data, env);
        match &self.content {
            ScopeContent::Transfer { state, .. } => {
                self.inner.lifecycle(ctx, event, state, env);
            },
            ScopeContent::Policy { .. } => {},
        }
    }

    fn update(&mut self, ctx: &mut UpdateCtx, old_data: &SP::In, data: &SP::In, env: &Env) {
        self.with_state(true, data, env);
        let ghost ready = *self;
        match &self.content {
            ScopeContent::Transfer { state, .. } => {
                self.inner.update(ctx, state, env);
            },
            ScopeContent::Policy { .. } => {},
        }
        proof {
            let start = choose|state: SP::State|
                Self::readied_from(old(self), true, data, env, state, &ready);
            assert(Self::readied_from(old(self), true, data, env, start, self));
        }
    }

    fn layout(&mut self, ctx: &mut LayoutCtx, bc: &BoxConstraints, data: &SP::In, env: &Env) -> (size:
        Size) {
        self.with_state(false, data, env);
        let size = match &self.content {
            ScopeContent::Transfer { state, .. } => self.inner.layout(ctx, bc, state, env),
            ScopeContent::Policy { .. } => bc.constrain(Size::zero()),
        };
        let ghost laid = self.inner;
        self.inner.set_origin(Point::zero());
        proof {
            assert(Self::layout_from(old(self), old(ctx), bc, data, env, &laid, self, ctx, size));
        }
        size
    }

    fn paint(&mut self, ctx: &mut PaintCtx, data: &SP::In, env: &Env) {
        self.with_state(false, data, env);
        match &self.content {
            ScopeContent::Transfer { state, .. } => {
                self.inner.paint_raw(ctx, state, env);
            },
            ScopeContent::Policy { .. } => {},
        }
    }
}

/// Writing the state of a scope back twice in a row, with nothing done in
/// between, leaves the input as the first writing left it: the second
/// writing changes nothing.
pub proof fn lemma_write_back_twice<SP: ScopePolicy, W: Widget<SP::State>>(
    scope: &Scope<SP, W>,
    input: SP::In,
)
    ensures
        scope.spec_written_back(scope.spec_written_back(input)) == scope.spec_written_back(input),
{
    if scope.spec_diverged() {
        scope.content->transfer.lemma_write_back_idempotent(&scope.content->state, input);
    }
}

/// A transfer through a lens keeps state and input in step: once the input
/// is read in, the state shows the input; once the state is written back,
/// the input is what the state shows. This rests on a comparison of inputs
/// that is never mistaken.
pub proof fn lemma_lens_transfer_in_step<In: Data, State: Data, L: Lens<State, In>>(
    transfer: &LensScopeTransfer<L, In, State>,
    state: State,
    input: In,
    env: &Env,
)
    requires
        never_mistaken::<In>(),
    ensures
        transfer.lens.get_spec(&transfer.read_spec(state, &input, env)) == input,
        transfer.write_back_spec(&state, input) == transfer.lens.get_spec(&state),
{
    transfer.lens.lemma_put_get(state, input);
    assert(transfer.lens.get_spec(&state).same_spec(&input) ==> transfer.lens.get_spec(&state)
        == input);
}

} // verus!
