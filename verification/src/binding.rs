//! Bindings: rules that keep one part of the data and one property of a
//! controlled widget in step, in both directions.

use vstd::prelude::*;
use std::marker::PhantomData;
use crate::context::{
    Env, EventCtx, Frame, LayoutCtx, LifeCycleCtx, PaintCtx, Requests, UpdateCtx,
};
use crate::data::{recognised, Data};
use crate::event::{Command, Event, LifeCycle, Payload, Target, WidgetId, APPLY_BINDINGS};
use crate::geometry::{BoxConstraints, Size};
use crate::lens::Lens;
use crate::widget::Widget;

verus! {

/// A widget that gives access to the widget inside it that bindings control.
///
/// A widget that is itself the thing to bind returns itself; a wrapper passes
/// the question on to what it wraps.
pub trait BindableAccess<T, U>: Widget<T> {
    /// The widget that bindings control.
    type Wrapped: Widget<U>;

    /// The controlled widget inside this one.
    spec fn spec_bindable(&self) -> Self::Wrapped;

    /// `post` is `pre` with the controlled widget replaced by `wrapped`, and
    /// nothing else changed.
    spec fn rebound(pre: &Self, wrapped: Self::Wrapped, post: &Self) -> bool;

    /// A well-formed widget holds a well-formed controlled widget, and stays
    /// well-formed when that is replaced by another well-formed one.
    proof fn lemma_rebound(pre: &Self, wrapped: Self::Wrapped, post: &Self)
        requires
            pre.wf(),
        ensures
            pre.spec_bindable().wf(),
            wrapped.wf() && Self::rebound(pre, wrapped, post) ==> post.wf() && post.spec_bindable()
                == wrapped,
    ;

    fn bindable(&self) -> (r: &Self::Wrapped)
        ensures
            *r == self.spec_bindable(),
    ;

    fn bindable_mut(&mut self) -> (r: &mut Self::Wrapped)
        ensures
            *r == old(self).spec_bindable(),
            Self::rebound(old(self), *final(r), final(self)),
    ;
}

/// A two-way rule between data of type `T` and a controlled item.
///
/// `pushed` is the controlled item after the data has been applied to it
/// (the data wins); `detected` is the change that a look at both finds;
/// `applied` is the data after such a change has been applied to it (the
/// controlled item wins).
pub trait Binding<T, Controlled>: Sized {
    /// What has to be carried from the controlled item to the data.
    type Change;

    /// The controlled item once the bound value of the data is applied to it.
    spec fn pushed(&self, data: &T, controlled: Controlled, frame: Frame, env: &Env) -> Controlled;

    /// What applying the data asks for.
    spec fn push_requests(&self) -> Requests;

    /// The change that is pending after a look at the controlled item and
    /// the data, where `change` was pending before.
    spec fn detected(
        &self,
        controlled: &Controlled,
        data: &T,
        change: Option<Self::Change>,
        env: &Env,
    ) -> Option<Self::Change>;

    /// The data once the change is applied to it.
    spec fn applied(&self, controlled: &Controlled, data: T, change: Self::Change, env: &Env) -> T;

    /// Applies the bound value of the data to the controlled item.
    fn apply_data_to_controlled(
        &self,
        data: &T,
        controlled: &mut Controlled,
        ctx: &mut UpdateCtx,
        env: &Env,
    )
        ensures
            *final(controlled) == self.pushed(data, *old(controlled), old(ctx).frame, env),
            *final(ctx) == (UpdateCtx {
                requests: old(ctx).requests.spec_merge(self.push_requests()),
                ..*old(ctx)
            }),
    ;

    /// Notes in `change` whether the data has to follow the controlled item.
    fn append_change_required(
        &self,
        controlled: &Controlled,
        data: &T,
        change: &mut Option<Self::Change>,
        env: &Env,
    )
        ensures
            *final(change) == self.detected(controlled, data, *old(change), env),
    ;

    /// Applies a change to the data.
    fn apply_change_to_data(
        &self,
        controlled: &Controlled,
        data: &mut T,
        change: Self::Change,
        ctx: &mut EventCtx,
        env: &Env,
    )
        ensures
            *final(data) == self.applied(controlled, *old(data), change, env),
            *final(ctx) == *old(ctx),
    ;
}

impl<T, Controlled, Bind1: Binding<T, Controlled>, Bind2: Binding<T, Controlled>> Binding<
    T,
    Controlled,
> for (Bind1, Bind2) {
    type Change = (Option<Bind1::Change>, Option<Bind2::Change>);

    open spec fn pushed(&self, data: &T, controlled: Controlled, frame: Frame, env: &Env) -> Controlled {
        self.1.pushed(data, self.0.pushed(data, controlled, frame, env), frame, env)
    }

    open spec fn push_requests(&self) -> Requests {
        self.0.push_requests().spec_merge(self.1.push_requests())
    }

    open spec fn detected(
        &self,
        controlled: &Controlled,
        data: &T,
        change: Option<Self::Change>,
        env: &Env,
    ) -> Option<Self::Change> {
        let before = match change {
            Some(pair) => pair,
            None => (None, None),
        };
        let first = self.0.detected(controlled, data, before.0, env);
        let second = self.1.detected(controlled, data, before.1, env);
        if first is None && second is None {
            None
        } else {
            Some((first, second))
        }
    }

    open spec fn applied(&self, controlled: &Controlled, data: T, change: Self::Change, env: &Env) -> T {
        let after_first = match change.0 {
            Some(c) => self.0.applied(controlled, data, c, env),
            None => data,
        };
        match change.1 {
            Some(c) => self.1.applied(controlled, after_first, c, env),
            None => after_first,
        }
    }

    fn apply_data_to_controlled(
        &self,
        data: &T,
        controlled: &mut Controlled,
        ctx: &mut UpdateCtx,
        env: &Env,
    ) {
        self.0.apply_data_to_controlled(data, controlled, ctx, env);
        self.1.apply_data_to_controlled(data, controlled, ctx, env);
    }

    fn append_change_required(
        &self,
        controlled: &Controlled,
        data: &T,
        change: &mut Option<Self::Change>,
        env: &Env,
    ) {
        let (mut first, mut second) = match change.take() {
            Some(pair) => pair,
            None => (None, None),
        };
        self.0.append_change_required(controlled, data, &mut first, env);
        self.1.append_change_required(controlled, data, &mut second, env);
        if first.is_none() && second.is_none() {
            *change = None;
        } else {
            *change = Some((first, second));
        }
    }

    fn apply_change_to_data(
        &self,
        controlled: &Controlled,
        data: &mut T,
        change: Self::Change,
        ctx: &mut EventCtx,
        env: &Env,
    ) {
        let (first, second) = change;
        match first {
            Some(c) => {
                self.0.apply_change_to_data(controlled, data, c, ctx, env);
            },
            None => {},
        }
        match second {
            Some(c) => {
                self.1.apply_change_to_data(controlled, data, c, ctx, env);
            },
            None => {},
        }
    }
}

/// A binding cut down to one direction: the data always wins.
pub struct DataToWidgetOnlyBinding<B>(pub B);

impl<T, Controlled, B: Binding<T, Controlled>> Binding<T, Controlled> for DataToWidgetOnlyBinding<
    B,
> {
    type Change = ();

    open spec fn pushed(&self, data: &T, controlled: Controlled, frame: Frame, env: &Env) -> Controlled {
        self.0.pushed(data, controlled, frame, env)
    }

    open spec fn push_requests(&self) -> Requests {
        self.0.push_requests()
    }

    open spec fn detected(
        &self,
        controlled: &Controlled,
        data: &T,
        change: Option<()>,
        env: &Env,
    ) -> Option<()> {
        change
    }

    open spec fn applied(&self, controlled: &Controlled, data: T, change: (), env: &Env) -> T {
        data
    }

    fn apply_data_to_controlled(
        &self,
        data: &T,
        controlled: &mut Controlled,
        ctx: &mut UpdateCtx,
        env: &Env,
    ) {
        self.0.apply_data_to_controlled(data, controlled, ctx, env);
    }

    fn append_change_required(
        &self,
        controlled: &Controlled,
        data: &T,
        change: &mut Option<()>,
        env: &Env,
    ) {
    }

    fn apply_change_to_data(
        &self,
        controlled: &Controlled,
        data: &mut T,
        change: (),
        ctx: &mut EventCtx,
        env: &Env,
    ) {
    }
}

/// A binding cut down to one direction: the controlled item always wins.
pub struct WidgetToDataOnlyBinding<B>(pub B);

impl<T, Controlled, B: Binding<T, Controlled>> Binding<T, Controlled> for WidgetToDataOnlyBinding<
    B,
> {
    type Change = B::Change;

    open spec fn pushed(&self, data: &T, controlled: Controlled, frame: Frame, env: &Env) -> Controlled {
        controlled
    }

    open spec fn push_requests(&self) -> Requests {
        Requests::spec_none()
    }

    open spec fn detected(
        &self,
        controlled: &Controlled,
        data: &T,
        change: Option<Self::Change>,
        env: &Env,
    ) -> Option<Self::Change> {
        self.0.detected(controlled, data, change, env)
    }

    open spec fn applied(&self, controlled: &Controlled, data: T, change: Self::Change, env: &Env) -> T {
        self.0.applied(controlled, data, change, env)
    }

    fn apply_data_to_controlled(
        &self,
        data: &T,
        controlled: &mut Controlled,
        ctx: &mut UpdateCtx,
        env: &Env,
    ) {
    }

    fn append_change_required(
        &self,
        controlled: &Controlled,
        data: &T,
        change: &mut Option<Self::Change>,
        env: &Env,
    ) {
        self.0.append_change_required(controlled, data, change, env);
    }

    fn apply_change_to_data(
        &self,
        controlled: &Controlled,
        data: &mut T,
        change: Self::Change,
        ctx: &mut EventCtx,
        env: &Env,
    ) {
        self.0.apply_change_to_data(controlled, data, change, ctx, env);
    }
}

/// A binding between two lenses onto values of one type: one into the data,
/// one into the controlled item.
pub struct LensBinding<T, Controlled, PropValue, LT, LC> {
    pub lens_from_data: LT,
    pub lens_from_controlled: LC,
    pub phantom: PhantomData<(T, Controlled, PropValue)>,
}

impl<T, Controlled, PropValue, LT: Lens<T, PropValue>, LC: Lens<Controlled, PropValue>> LensBinding<
    T,
    Controlled,
    PropValue,
    LT,
    LC,
> {
    pub fn new(lens_from_data: LT, lens_from_controlled: LC) -> (r: Self)
        ensures
            r.lens_from_data == lens_from_data,
            r.lens_from_controlled == lens_from_controlled,
    {
        LensBinding { lens_from_data, lens_from_controlled, phantom: PhantomData }
    }
}

impl<
    T,
    Controlled,
    PropValue: Data,
    LT: Lens<T, PropValue>,
    LC: Lens<Controlled, PropValue>,
> Binding<T, Controlled> for LensBinding<T, Controlled, PropValue, LT, LC> {
    type Change = PropValue;

    open spec fn pushed(&self, data: &T, controlled: Controlled, frame: Frame, env: &Env) -> Controlled {
        self.lens_from_controlled.put_spec(controlled, self.lens_from_data.get_spec(data))
    }

    open spec fn push_requests(&self) -> Requests {
        Requests { paint: true, ..Requests::spec_none() }
    }

    open spec fn detected(
        &self,
        controlled: &Controlled,
        data: &T,
        change: Option<PropValue>,
        env: &Env,
    ) -> Option<PropValue> {
        let property = self.lens_from_controlled.get_spec(controlled);
        if property.same_spec(&self.lens_from_data.get_spec(data)) {
            None
        } else {
            Some(property)
        }
    }

    open spec fn applied(&self, controlled: &Controlled, data: T, change: PropValue, env: &Env) -> T {
        self.lens_from_data.put_spec(data, change)
    }

    fn apply_data_to_controlled(
        &self,
        data: &T,
        controlled: &mut Controlled,
        ctx: &mut UpdateCtx,
        env: &Env,
    ) {
        let value = self.lens_from_data.get(data).duplicate();
        crate::lens::put(&self.lens_from_controlled, controlled, value);
        ctx.request_paint();
    }

    fn append_change_required(
        &self,
        controlled: &Controlled,
        data: &T,
        change: &mut Option<PropValue>,
        env: &Env,
    ) {
        let field = self.lens_from_data.get(data);
        let property = self.lens_from_controlled.get(controlled);
        if property.same(field) {
            *change = None;
        } else {
            *change = Some(property.duplicate());
        }
    }

    fn apply_change_to_data(
        &self,
        controlled: &Controlled,
        data: &mut T,
        change: PropValue,
        ctx: &mut EventCtx,
        env: &Env,
    ) {
        crate::lens::put(&self.lens_from_data, data, change);
    }
}

/// A property of a controlled item that can be bound although no lens
/// reaches it: it is written and read through methods of the item.
pub trait BindableProperty: Sized {
    type Controlling;

    type Value;

    type Change;

    /// The controlled item once the value is written to the property.
    spec fn written(
        &self,
        controlled: Self::Controlling,
        field_val: &Self::Value,
        frame: Frame,
        env: &Env,
    ) -> Self::Controlling;

    /// What writing the property asks for.
    spec fn write_requests(&self) -> Requests;

    /// The change that is pending after a look at the property and the value.
    spec fn changes(
        &self,
        controlled: &Self::Controlling,
        field_val: &Self::Value,
        change: Option<Self::Change>,
        env: &Env,
    ) -> Option<Self::Change>;

    /// The value once the change is applied to it.
    spec fn updated(
        &self,
        controlled: &Self::Controlling,
        field: Self::Value,
        change: Self::Change,
        env: &Env,
    ) -> Self::Value;

    fn write_prop(
        &self,
        controlled: &mut Self::Controlling,
        ctx: &mut UpdateCtx,
        field_val: &Self::Value,
        env: &Env,
    )
        ensures
            *final(controlled) == self.written(*old(controlled), field_val, old(ctx).frame, env),
            *final(ctx) == (UpdateCtx {
                requests: old(ctx).requests.spec_merge(self.write_requests()),
                ..*old(ctx)
            }),
    ;

    fn append_changes(
        &self,
        controlled: &Self::Controlling,
        field_val: &Self::Value,
        change: &mut Option<Self::Change>,
        env: &Env,
    )
        ensures
            *final(change) == self.changes(controlled, field_val, *old(change), env),
    ;

    fn update_data_from_change(
        &self,
        controlled: &Self::Controlling,
        ctx: &EventCtx,
        field: &mut Self::Value,
        change: Self::Change,
        env: &Env,
    )
        ensures
            *final(field) == self.updated(controlled, *old(field), change, env),
    ;
}

/// A binding between a lens into the data and a property of the controlled
/// item.
pub struct LensPropBinding<T, LT, PropC> {
    pub lens_from_data: LT,
    pub prop_from_controlled: PropC,
    pub phantom: PhantomData<T>,
}

impl<T, PropC: BindableProperty, LT: Lens<T, PropC::Value>> LensPropBinding<T, LT, PropC> {
    pub fn new(lens_from_data: LT, prop_from_controlled: PropC) -> (r: Self)
        ensures
            r.lens_from_data == lens_from_data,
            r.prop_from_controlled == prop_from_controlled,
    {
        LensPropBinding { lens_from_data, prop_from_controlled, phantom: PhantomData }
    }
}

impl<T, PropC: BindableProperty, LT: Lens<T, PropC::Value>> Binding<
    T,
    PropC::Controlling,
> for LensPropBinding<T, LT, PropC> {
    type Change = PropC::Change;

    open spec fn pushed(
        &self,
        data: &T,
        controlled: PropC::Controlling,
        frame: Frame,
        env: &Env,
    ) -> PropC::Controlling {
        self.prop_from_controlled.written(
            controlled,
            &self.lens_from_data.get_spec(data),
            frame,
            env,
        )
    }

    open spec fn push_requests(&self) -> Requests {
        self.prop_from_controlled.write_requests()
    }

    open spec fn detected(
        &self,
        controlled: &PropC::Controlling,
        data: &T,
        change: Option<PropC::Change>,
        env: &Env,
    ) -> Option<PropC::Change> {
        self.prop_from_controlled.changes(
            controlled,
            &self.lens_from_data.get_spec(data),
            change,
            env,
        )
    }

    open spec fn applied(
        &self,
        controlled: &PropC::Controlling,
        data: T,
        change: PropC::Change,
        env: &Env,
    ) -> T {
        self.lens_from_data.put_spec(
            data,
            self.prop_from_controlled.updated(
                controlled,
                self.lens_from_data.get_spec(&data),
                change,
                env,
            ),
        )
    }

    fn apply_data_to_controlled(
        &self,
        data: &T,
        controlled: &mut PropC::Controlling,
        ctx: &mut UpdateCtx,
        env: &Env,
    ) {
        let field = self.lens_from_data.get(data);
        self.prop_from_controlled.write_prop(controlled, ctx, field, env);
    }

    fn append_change_required(
        &self,
        controlled: &PropC::Controlling,
        data: &T,
        change: &mut Option<PropC::Change>,
        env: &Env,
    ) {
        let field = self.lens_from_data.get(data);
        self.prop_from_controlled.append_changes(controlled, field, change, env);
    }

    fn apply_change_to_data(
        &self,
        controlled: &PropC::Controlling,
        data: &mut T,
        change: PropC::Change,
        ctx: &mut EventCtx,
        env: &Env,
    ) {
        let field = self.lens_from_data.get_mut(data);
        self.prop_from_controlled.update_data_from_change(controlled, ctx, field, change, env);
    }
}

/// Building bindings from lenses.
pub trait LensBindingExt<T, U>: Lens<T, U> {
    /// The binding between the part of the data that this lens shows and
    /// the part of the controlled item that `other` shows.
    fn bind_lens<C, L: Lens<C, U>>(self, other: L) -> (r: LensBinding<T, C, U, Self, L>)
        ensures
            r.lens_from_data == self,
            r.lens_from_controlled == other,
    {
        LensBinding::new(self, other)
    }

    /// The binding between the part of the data that this lens shows and a
    /// property of the controlled item.
    fn bind<BP: BindableProperty<Value = U>>(self, prop: BP) -> (r: LensPropBinding<T, Self, BP>)
        ensures
            r.lens_from_data == self,
            r.prop_from_controlled == prop,
    {
        LensPropBinding::new(self, prop)
    }
}

impl<T, U, M: Lens<T, U>> LensBindingExt<T, U> for M {
}

/// Combining bindings.
pub trait BindingExt<T, Controlled>: Binding<T, Controlled> {
    /// This binding and another, as one.
    fn and<B: Binding<T, Controlled>>(self, other: B) -> (r: (Self, B))
        ensures
            r == (self, other),
    {
        (self, other)
    }

    /// This binding from the controlled item to the data only.
    fn back(self) -> (r: WidgetToDataOnlyBinding<Self>)
        ensures
            r.0 == self,
    {
        WidgetToDataOnlyBinding(self)
    }

    /// This binding from the data to the controlled item only.
    fn forward(self) -> (r: DataToWidgetOnlyBinding<Self>)
        ensures
            r.0 == self,
    {
        DataToWidgetOnlyBinding(self)
    }
}

impl<T, Controlled, B: Binding<T, Controlled>> BindingExt<T, Controlled> for B {
}

/// One round of detecting and applying brings a lens binding to rest: where
/// the property has moved away from the data, the change found is the
/// property, and once it is applied the data shows the property and a second
/// look finds nothing. The property has to be a value that `same` recognises
/// as itself.
pub proof fn lemma_binding_converges<
    T,
    Controlled,
    PropValue: Data,
    LT: Lens<T, PropValue>,
    LC: Lens<Controlled, PropValue>,
>(
    binding: &LensBinding<T, Controlled, PropValue, LT, LC>,
    controlled: &Controlled,
    data: T,
    env: &Env,
)
    requires
        recognised(&binding.lens_from_controlled.get_spec(controlled)),
    ensures
        ({
            let property = binding.lens_from_controlled.get_spec(controlled);
            let found = binding.detected(controlled, &data, None, env);
            let settled = match found {
                Some(change) => binding.applied(controlled, data, change, env),
                None => data,
            };
            &&& found is Some ==> found == Some(property) && binding.lens_from_data.get_spec(
                &settled,
            ) == property
            &&& property.same_spec(&binding.lens_from_data.get_spec(&settled))
            &&& binding.detected(controlled, &settled, found, env) is None
        }),
{
    let property = binding.lens_from_controlled.get_spec(controlled);
    binding.lens_from_data.lemma_put_get(data, property);
}

/// The mark of a widget that is bound as it stands.
pub trait Bindable {
}

impl<T, B: Bindable + Widget<T>> BindableAccess<T, T> for B {
    type Wrapped = Self;

    open spec fn spec_bindable(&self) -> Self {
        *self
    }

    open spec fn rebound(pre: &Self, wrapped: Self, post: &Self) -> bool {
        *post == wrapped
    }

    proof fn lemma_rebound(pre: &Self, wrapped: Self, post: &Self) {
    }

    fn bindable(&self) -> (r: &Self) {
        self
    }

    fn bindable_mut(&mut self) -> (r: &mut Self) {
        self
    }
}

/// The command a binding host sends itself where it has found a change
/// outside the event phase: it gets a round in which the data may change.
pub open spec fn spec_apply_command(id: WidgetId) -> Command {
    Command { selector: APPLY_BINDINGS, target: Target::Widget(id), payload: Payload::Empty }
}

/// Whether the event is the command that the binding host under the node
/// `id` sent itself.
pub open spec fn spec_own_command(event: &Event, id: WidgetId) -> bool {
    *event matches Event::Command(c) && c.selector == APPLY_BINDINGS && c.target
        == Target::Widget(id)
}

/// A widget with bindings between the data at this place of the tree and the
/// widget it contains.
///
/// A change found in the event phase is applied to the data at once. One
/// found in another phase stays pending and is applied at the start of the
/// next event phase, for which the host sends itself a command: the other
/// phases must not change the data.
pub struct BindingHost<T, U, Contained: BindableAccess<T, U>, B: Binding<T, Contained::Wrapped>> {
    pub contained: Contained,
    pub binding: B,
    pub pending_change: Option<B::Change>,
    pub phantom: PhantomData<(T, U)>,
}

impl<T: Data, U, Contained: BindableAccess<T, U>, B: Binding<T, Contained::Wrapped>> BindingHost<
    T,
    U,
    Contained,
    B,
> {
    /// Applying data through the binding keeps the controlled widget
    /// well-formed.
    pub open spec fn binding_keeps_wf(binding: &B) -> bool {
        forall|data: &T, controlled: Contained::Wrapped, frame: Frame, env: &Env|
            controlled.wf() ==> (#[trigger] binding.pushed(data, controlled, frame, env)).wf()
    }

    pub open spec fn spec_wf(&self) -> bool {
        self.contained.wf() && Self::binding_keeps_wf(&self.binding)
    }

    pub fn new(contained: Contained, binding: B) -> (r: Self)
        requires
            contained.wf(),
            Self::binding_keeps_wf(&binding),
        ensures
            r.spec_wf(),
            r.contained == contained,
            r.binding == binding,
            r.pending_change is None,
    {
        BindingHost { contained, binding, pending_change: None, phantom: PhantomData }
    }

    /// The data once the pending change, if there is one, is applied.
    pub open spec fn spec_settled(&self, data: T, env: &Env) -> T {
        match self.pending_change {
            Some(change) => self.binding.applied(
                &self.contained.spec_bindable(),
                data,
                change,
                env,
            ),
            None => data,
        }
    }

    /// Applies the pending change to the data.
    pub fn apply_pending_changes(&mut self, ctx: &mut EventCtx, data: &mut T, env: &Env)
        ensures
            *final(self) == (BindingHost { pending_change: None, ..*old(self) }),
            *final(data) == old(self).spec_settled(*old(data), env),
            *final(ctx) == *old(ctx),
    {
        match self.pending_change.take() {
            Some(change) => {
                self.binding.apply_change_to_data(self.contained.bindable(), data, change, ctx, env);
            },
            None => {},
        }
    }

    /// The change pending after a look at the controlled widget and the data.
    pub open spec fn spec_found(&self, data: &T, env: &Env) -> Option<B::Change> {
        self.binding.detected(&self.contained.spec_bindable(), data, self.pending_change, env)
    }

    /// Looks whether the controlled widget has moved away from the data.
    pub fn check_for_changes(&mut self, data: &T, env: &Env) -> (r: bool)
        ensures
            *final(self) == (BindingHost {
                pending_change: old(self).spec_found(data, env),
                ..*old(self)
            }),
            r == old(self).spec_found(data, env) is Some,
    {
        self.binding.append_change_required(
            self.contained.bindable(),
            data,
            &mut self.pending_change,
            env,
        );
        self.pending_change.is_some()
    }

    /// One event phase, told with the data `between` as the contained
    /// widget left it.
    pub open spec fn event_from(
        pre: &Self,
        ctx0: &EventCtx,
        event: &Event,
        data0: &T,
        env: &Env,
        between: &T,
        post: &Self,
        ctx1: &EventCtx,
        data1: &T,
    ) -> bool {
        let settled = pre.spec_settled(*data0, env);
        let calm = BindingHost { pending_change: None, ..*pre };
        &&& post.binding == pre.binding
        &&& post.pending_change is None
        &&& if spec_own_command(event, ctx0.frame.widget_id) {
            &&& post.contained == pre.contained
            &&& *between == settled
            &&& *ctx1 == (EventCtx { is_handled: true, ..*ctx0 })
        } else {
            Contained::event_post(
                &pre.contained,
                ctx0,
                event,
                &settled,
                env,
                &post.contained,
                ctx1,
                between,
            )
        }
        &&& *data1 == (BindingHost {
            contained: post.contained,
            pending_change: (BindingHost { contained: post.contained, ..calm }).spec_found(
                between,
                env,
            ),
            ..calm
        }).spec_settled(*between, env)
    }

    /// The command has been posted where a change is pending.
    pub open spec fn lifecycle_posted(
        mid: &LifeCycleCtx,
        pending: bool,
        ctx1: &LifeCycleCtx,
    ) -> bool {
        if pending {
            &&& ctx1.commands@ == mid.commands@.push(spec_apply_command(mid.frame.widget_id))
            &&& ctx1.frame == mid.frame
            &&& ctx1.requests == mid.requests
            &&& ctx1.ids == mid.ids
        } else {
            *ctx1 == *mid
        }
    }

    /// The command has been posted where a change is pending.
    pub open spec fn update_posted(mid: &UpdateCtx, pending: bool, ctx1: &UpdateCtx) -> bool {
        if pending {
            &&& ctx1.commands@ == mid.commands@.push(spec_apply_command(mid.frame.widget_id))
            &&& ctx1.frame == mid.frame
            &&& ctx1.requests == mid.requests
            &&& ctx1.ids == mid.ids
        } else {
            *ctx1 == *mid
        }
    }

    /// The command has been posted where a change is pending.
    pub open spec fn layout_posted(mid: &LayoutCtx, pending: bool, ctx1: &LayoutCtx) -> bool {
        if pending {
            &&& ctx1.commands@ == mid.commands@.push(spec_apply_command(mid.frame.widget_id))
            &&& ctx1.frame == mid.frame
            &&& ctx1.warnings == mid.warnings
        } else {
            *ctx1 == *mid
        }
    }

    /// One lifecycle phase, told with the context `mid` that the contained
    /// widget left.
    pub open spec fn lifecycle_from(
        pre: &Self,
        ctx0: &LifeCycleCtx,
        event: &LifeCycle,
        data: &T,
        env: &Env,
        mid: &LifeCycleCtx,
        post: &Self,
        ctx1: &LifeCycleCtx,
    ) -> bool {
        &&& Contained::lifecycle_post(&pre.contained, ctx0, event, data, env, &post.contained, mid)
        &&& *post == (BindingHost {
            contained: post.contained,
            pending_change: (BindingHost { contained: post.contained, ..*pre }).spec_found(
                data,
                env,
            ),
            ..*pre
        })
        &&& Self::lifecycle_posted(mid, post.pending_change is Some, ctx1)
    }

    /// One update phase, told with the contained widget `start` as the
    /// binding left it and the context `mid` that the contained widget left.
    pub open spec fn update_from(
        pre: &Self,
        ctx0: &UpdateCtx,
        old_data: &T,
        data: &T,
        env: &Env,
        start: &Contained,
        mid: &UpdateCtx,
        post: &Self,
        ctx1: &UpdateCtx,
    ) -> bool {
        &&& if old_data.same_spec(data) {
            &&& *start == pre.contained
            &&& Contained::update_post(start, ctx0, old_data, data, env, &post.contained, mid)
        } else {
            &&& Contained::rebound(
                &pre.contained,
                pre.binding.pushed(data, pre.contained.spec_bindable(), ctx0.frame, env),
                start,
            )
            &&& Contained::update_post(
                start,
                &(UpdateCtx {
                    requests: ctx0.requests.spec_merge(pre.binding.push_requests()),
                    ..*ctx0
                }),
                old_data,
                data,
                env,
                &post.contained,
                mid,
            )
        }
        &&& *post == (BindingHost {
            contained: post.contained,
            pending_change: (BindingHost { contained: post.contained, ..*pre }).spec_found(
                data,
                env,
            ),
            ..*pre
        })
        &&& Self::update_posted(mid, post.pending_change is Some, ctx1)
    }

    /// One layout phase, told with the context `mid` that the contained
    /// widget left.
    pub open spec fn layout_from(
        pre: &Self,
        ctx0: &LayoutCtx,
        bc: &BoxConstraints,
        data: &T,
        env: &Env,
        mid: &LayoutCtx,
        post: &Self,
        ctx1: &LayoutCtx,
        size: Size,
    ) -> bool {
        &&& Contained::layout_post(&pre.contained, ctx0, bc, data, env, &post.contained, mid, size)
        &&& *post == (BindingHost {
            contained: post.contained,
            pending_change: (BindingHost { contained: post.contained, ..*pre }).spec_found(
                data,
                env,
            ),
            ..*pre
        })
        &&& Self::layout_posted(mid, post.pending_change is Some, ctx1)
    }
}

impl<T: Data, U, Contained: BindableAccess<T, U>, B: Binding<T, Contained::Wrapped>> Widget<
    T,
> for BindingHost<T, U, Contained, B> {
    open spec fn wf(&self) -> bool {
        self.spec_wf()
    }

    /// A change left pending by an earlier phase is applied to the data
    /// first. Then the contained widget handles the event, unless the event
    /// is the command that this host sent itself, which is marked as
    /// handled. A change found after that is applied at once.
    open spec fn event_post(
        pre: &Self,
        ctx0: &EventCtx,
        event: &Event,
        data0: &T,
        env: &Env,
        post: &Self,
        ctx1: &EventCtx,
        data1: &T,
    ) -> bool {
        exists|between: T| #[trigger]
            Self::event_from(pre, ctx0, event, data0, env, &between, post, ctx1, data1)
    }

    /// The contained widget takes the notice. A change found after that
    /// stays pending, and the host sends itself the command.
    open spec fn lifecycle_post(
        pre: &Self,
        ctx0: &LifeCycleCtx,
        event: &LifeCycle,
        data: &T,
        env: &Env,
        post: &Self,
        ctx1: &LifeCycleCtx,
    ) -> bool {
        exists|mid: LifeCycleCtx| #[trigger]
            Self::lifecycle_from(pre, ctx0, event, data, env, &mid, post, ctx1)
    }

    /// Where the data changed it is applied to the controlled widget: the
    /// data wins. Then the contained widget updates. A change found after
    /// that stays pending, and the host sends itself the command.
    open spec fn update_post(
        pre: &Self,
        ctx0: &UpdateCtx,
        old_data: &T,
        data: &T,
        env: &Env,
        post: &Self,
        ctx1: &UpdateCtx,
    ) -> bool {
        exists|start: Contained, mid: UpdateCtx| #[trigger]
            Self::update_from(pre, ctx0, old_data, data, env, &start, &mid, post, ctx1)
    }

    /// The contained widget is laid out. A change found after that stays
    /// pending, and the host sends itself the command.
    open spec fn layout_post(
        pre: &Self,
        ctx0: &LayoutCtx,
        bc: &BoxConstraints,
        data: &T,
        env: &Env,
        post: &Self,
        ctx1: &LayoutCtx,
        size: Size,
    ) -> bool {
        exists|mid: LayoutCtx| #[trigger]
            Self::layout_from(pre, ctx0, bc, data, env, &mid, post, ctx1, size)
    }

    /// The contained widget paints. Nothing is looked for: painting must not
    /// change the data, and a later phase will find what there is to find.
    open spec fn paint_post(
        pre: &Self,
        ctx0: &PaintCtx,
        data: &T,
        env: &Env,
        post: &Self,
        ctx1: &PaintCtx,
    ) -> bool {
        &&& Contained::paint_post(&pre.contained, ctx0, data, env, &post.contained, ctx1)
        &&& *post == (BindingHost { contained: post.contained, ..*pre })
    }

    fn event(&mut self, ctx: &mut EventCtx, event: &Event, data: &mut T, env: &Env) {
        self.apply_pending_changes(ctx, data, env);
        let own = match event {
            Event::Command(c) => c.is(APPLY_BINDINGS) && match c.target {
                Target::Widget(id) => id.0 == ctx.frame.widget_id.0,
                Target::Global => false,
            },
            _ => false,
        };
        if own {
            ctx.set_handled();
        } else {
            self.contained.event(ctx, event, data, env);
        }
        let ghost between = *data;
        if self.check_for_changes(data, env) {
            self.apply_pending_changes(ctx, data, env);
        }
        proof {
            assert(Self::event_from(old(self), old(ctx), event, old(data), env, &between, self, ctx, data));
        }
    }

    fn lifecycle(&mut self, ctx: &mut LifeCycleCtx, event: &LifeCycle, data: &T, env: &Env) {
        self.contained.lifecycle(ctx, event, data, env);
        let ghost mid = *ctx;
        if self.check_for_changes(data, env) {
            let id = ctx.frame.widget_id;
            ctx.submit_command(Command::new(APPLY_BINDINGS, Target::Widget(id)));
        }
        proof {
            assert(Self::lifecycle_from(old(self), old(ctx), event, data, env, &mid, self, ctx));
        }
    }

    fn update(&mut self, ctx: &mut UpdateCtx, old_data: &T, data: &T, env: &Env) {
        if !old_data.same(data) {
            proof {
                Contained::lemma_rebound(&self.contained, self.contained.spec_bindable(), &self.contained);
            }
            let ghost before = self.contained;
            let controlled = self.contained.bindable_mut();
            self.binding.apply_data_to_controlled(data, controlled, ctx, env);
            proof {
                Contained::lemma_rebound(
                    &before,
                    self.binding.pushed(data, before.spec_bindable(), old(ctx).frame, env),
                    &self.contained,
                );
            }
        }
        let ghost start = self.contained;
        self.contained.update(ctx, old_data, data, env);
        let ghost mid = *ctx;
        if self.check_for_changes(data, env) {
            let id = ctx.frame.widget_id;
            ctx.submit_command(Command::new(APPLY_BINDINGS, Target::Widget(id)));
        }
        proof {
            assert(Self::update_from(old(self), old(ctx), old_data, data, env, &start, &mid, self, ctx));
        }
    }

    fn layout(&mut self, ctx: &mut LayoutCtx, bc: &BoxConstraints, data: &T, env: &Env) -> (size:
        Size) {
        let size = self.contained.layout(ctx, bc, data, env);
        let ghost mid = *ctx;
        if self.check_for_changes(data, env) {
            let id = ctx.frame.widget_id;
            ctx.submit_command(Command::new(APPLY_BINDINGS, Target::Widget(id)));
        }
        proof {
            assert(Self::layout_from(old(self), old(ctx), bc, data, env, &mid, self, ctx, size));
        }
        size
    }

    fn paint(&mut self, ctx: &mut PaintCtx, data: &T, env: &Env) {
        self.contained.paint(ctx, data, env);
    }
}

/// Putting a widget under bindings.
pub trait WidgetBindingExt<T: Data, U>: BindableAccess<T, U> {
    /// This widget with `binding` between the data and the widget that
    /// bindings control inside it.
    fn binding<B: Binding<T, Self::Wrapped>>(self, binding: B) -> (r: BindingHost<T, U, Self, B>)
        requires
            self.wf(),
            BindingHost::<T, U, Self, B>::binding_keeps_wf(&binding),
        ensures
            r.spec_wf(),
            r.contained == self,
            r.binding == binding,
            r.pending_change is None,
    {
        BindingHost::new(self, binding)
    }
}

impl<T: Data, U, W: BindableAccess<T, U>> WidgetBindingExt<T, U> for W {
}

} // verus!
