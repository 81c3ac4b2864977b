//! The contract every piece of application state meets: a cheap comparison
//! and duplication.

use vstd::prelude::*;
use crate::geometry::{Point, Size, Vec2};

verus! {

/// Application state that can be compared cheaply and duplicated.
///
/// `same` is meant to be cheap and may be cautious: it may answer `false` for
/// equal values. It must not take two different values for one. Each
/// implementation says in `same_spec` what it answers, and the contracts of
/// this crate speak of that answer; [`never_mistaken`] says of a type that
/// its answer can be relied on.
pub trait Data: Sized {
    /// What `same` answers.
    spec fn same_spec(&self, other: &Self) -> bool;

    fn same(&self, other: &Self) -> (r: bool)
        ensures
            r == self.same_spec(other),
    ;

    /// An independent copy of this value.
    fn duplicate(&self) -> (r: Self)
        ensures
            r == *self,
    ;
}

impl Data for u64 {
    open spec fn same_spec(&self, other: &Self) -> bool {
        *self == *other
    }

    fn same(&self, other: &Self) -> (r: bool) {
        *self == *other
    }

    fn duplicate(&self) -> (r: Self) {
        *self
    }
}

impl Data for i64 {
    open spec fn same_spec(&self, other: &Self) -> bool {
        *self == *other
    }

    fn same(&self, other: &Self) -> (r: bool) {
        *self == *other
    }

    fn duplicate(&self) -> (r: Self) {
        *self
    }
}

impl Data for usize {
    open spec fn same_spec(&self, other: &Self) -> bool {
        *self == *other
    }

    fn same(&self, other: &Self) -> (r: bool) {
        *self == *other
    }

    fn duplicate(&self) -> (r: Self) {
        *self
    }
}

impl Data for bool {
    open spec fn same_spec(&self, other: &Self) -> bool {
        *self == *other
    }

    fn same(&self, other: &Self) -> (r: bool) {
        *self == *other
    }

    fn duplicate(&self) -> (r: Self) {
        *self
    }
}

impl Data for () {
    open spec fn same_spec(&self, other: &Self) -> bool {
        true
    }

    fn same(&self, other: &Self) -> (r: bool) {
        true
    }

    fn duplicate(&self) -> (r: Self) {
        ()
    }
}

impl Data for String {
    open spec fn same_spec(&self, other: &Self) -> bool {
        self@ == other@
    }

    fn same(&self, other: &Self) -> (r: bool) {
        *self == *other
    }

    fn duplicate(&self) -> (r: Self) {
        self.clone()
    }
}

impl Data for Point {
    open spec fn same_spec(&self, other: &Self) -> bool {
        *self == *other
    }

    fn same(&self, other: &Self) -> (r: bool) {
        self.x == other.x && self.y == other.y
    }

    fn duplicate(&self) -> (r: Self) {
        *self
    }
}

impl Data for Vec2 {
    open spec fn same_spec(&self, other: &Self) -> bool {
        *self == *other
    }

    fn same(&self, other: &Self) -> (r: bool) {
        self.x == other.x && self.y == other.y
    }

    fn duplicate(&self) -> (r: Self) {
        *self
    }
}

impl Data for Size {
    open spec fn same_spec(&self, other: &Self) -> bool {
        *self == *other
    }

    fn same(&self, other: &Self) -> (r: bool) {
        self.width == other.width && self.height == other.height
    }

    fn duplicate(&self) -> (r: Self) {
        *self
    }
}

impl<A: Data, B: Data> Data for (A, B) {
    open spec fn same_spec(&self, other: &Self) -> bool {
        self.0.same_spec(&other.0) && self.1.same_spec(&other.1)
    }

    fn same(&self, other: &Self) -> (r: bool) {
        self.0.same(&other.0) && self.1.same(&other.1)
    }

    fn duplicate(&self) -> (r: Self) {
        (self.0.duplicate(), self.1.duplicate())
    }
}

impl<A: Data> Data for Option<A> {
    open spec fn same_spec(&self, other: &Self) -> bool {
        match (*self, *other) {
            (Some(a), Some(b)) => a.same_spec(&b),
            (None, None) => true,
            _ => false,
        }
    }

    fn same(&self, other: &Self) -> (r: bool) {
        match (self, other) {
            (Some(a), Some(b)) => a.same(b),
            (None, None) => true,
            _ => false,
        }
    }

    fn duplicate(&self) -> (r: Self) {
        match self {
            Some(a) => Some(a.duplicate()),
            None => None,
        }
    }
}

/// A value that is never held to be the same as another: the fallback for
/// state that cannot be compared cheaply. Every round then counts as a change.
pub struct Uncompared<T>(pub T);

impl<T: Data> Data for Uncompared<T> {
    open spec fn same_spec(&self, other: &Self) -> bool {
        false
    }

    fn same(&self, other: &Self) -> (r: bool) {
        false
    }

    fn duplicate(&self) -> (r: Self) {
        Uncompared(self.0.duplicate())
    }
}

/// Whether `same` recognises this value as itself. It does for every type
/// here but [`Uncompared`].
pub open spec fn recognised<T: Data>(value: &T) -> bool {
    value.same_spec(value)
}

/// Whether `same` never takes two different values of this type for one.
pub open spec fn never_mistaken<T: Data>() -> bool {
    forall|a: T, b: T| a.same_spec(&b) ==> a == b
}

/// The comparison of numbers, truth values, the empty value and of points,
/// displacements and sizes never takes two different values for one; nor
/// does the comparison that never answers yes.
pub proof fn lemma_plain_data_never_mistaken()
    ensures
        never_mistaken::<u64>(),
        never_mistaken::<i64>(),
        never_mistaken::<usize>(),
        never_mistaken::<bool>(),
        never_mistaken::<()>(),
        never_mistaken::<Point>(),
        never_mistaken::<Vec2>(),
        never_mistaken::<Size>(),
{
}

/// A comparison part by part is never mistaken where the comparisons of
/// the parts are not.
pub proof fn lemma_composed_data_never_mistaken<A: Data, B: Data>()
    requires
        never_mistaken::<A>(),
        never_mistaken::<B>(),
    ensures
        never_mistaken::<(A, B)>(),
        never_mistaken::<Option<A>>(),
        never_mistaken::<Uncompared<A>>(),
        never_mistaken::<DataList<A>>(),
{
    assert forall|a: (A, B), b: (A, B)| a.same_spec(&b) implies a == b by {
        assert(a.0.same_spec(&b.0) ==> a.0 == b.0);
        assert(a.1.same_spec(&b.1) ==> a.1 == b.1);
    }
    assert forall|a: Option<A>, b: Option<A>| a.same_spec(&b) implies a == b by {
        if a is Some && b is Some {
            assert(a->0.same_spec(&b->0) ==> a->0 == b->0);
        }
    }
    assert forall|a: DataList<A>, b: DataList<A>| a.same_spec(&b) implies a == b by {
        lemma_list_never_mistaken(&a, &b);
    }
}

proof fn lemma_list_never_mistaken<A: Data>(a: &DataList<A>, b: &DataList<A>)
    requires
        never_mistaken::<A>(),
        a.entries_same(b),
    ensures
        *a == *b,
    decreases a,
{
    match (a, b) {
        (DataList::Cons(x, xs), DataList::Cons(y, ys)) => {
            assert(x.same_spec(y) ==> *x == *y);
            lemma_list_never_mistaken(xs, ys);
        },
        _ => {},
    }
}

/// A list that is state: equal lists are equal values, whatever built them.
pub enum DataList<T> {
    Nil,
    Cons(T, Box<DataList<T>>),
}

impl<T> View for DataList<T> {
    type V = Seq<T>;

    open spec fn view(&self) -> Seq<T> {
        self.entries()
    }
}

impl<T> DataList<T> {
    /// The entries, first to last.
    pub open spec fn entries(&self) -> Seq<T>
        decreases self,
    {
        match self {
            DataList::Nil => Seq::empty(),
            DataList::Cons(head, tail) => seq![*head] + tail.entries(),
        }
    }

    /// The empty list.
    pub fn new() -> (r: Self)
        ensures
            r@ == Seq::<T>::empty(),
    {
        DataList::Nil
    }

    /// The number of entries, as far as `usize` can count.
    pub fn len(&self) -> (r: usize)
        ensures
            r == spec_cap(self@.len()),
        decreases self,
    {
        match self {
            DataList::Nil => 0,
            DataList::Cons(_, tail) => {
                let n = tail.len();
                if n == usize::MAX {
                    n
                } else {
                    n + 1
                }
            },
        }
    }

    /// The entry at `idx`, if there is one.
    pub fn get(&self, idx: u64) -> (r: Option<&T>)
        ensures
            idx < self@.len() ==> r == Some(&self@[idx as int]),
            idx >= self@.len() ==> r is None,
        decreases self,
    {
        match self {
            DataList::Nil => None,
            DataList::Cons(head, tail) => {
                if idx == 0 {
                    Some(head)
                } else {
                    tail.get(idx - 1)
                }
            },
        }
    }

    /// This list with `value` behind its last entry.
    pub fn push_back(self, value: T) -> (r: Self)
        ensures
            r@ == self@.push(value),
        decreases self,
    {
        match self {
            DataList::Nil => {
                let r = DataList::Cons(value, Box::new(DataList::Nil));
                assert(r@ =~= self@.push(value));
                r
            },
            DataList::Cons(head, tail) => {
                let ghost before = tail@;
                let rest = (*tail).push_back(value);
                let r = DataList::Cons(head, Box::new(rest));
                assert(r@ =~= (seq![head] + before).push(value));
                r
            },
        }
    }
}

/// `n` as `usize` counts it: the largest `usize` stands for all beyond.
pub open spec fn spec_cap(n: nat) -> usize {
    if n >= usize::MAX {
        usize::MAX
    } else {
        n as usize
    }
}

impl<T: Data> DataList<T> {
    /// Entry by entry, what `same` answers.
    pub open spec fn entries_same(&self, other: &Self) -> bool
        decreases self,
    {
        match (self, other) {
            (DataList::Nil, DataList::Nil) => true,
            (DataList::Cons(a, x), DataList::Cons(b, y)) => a.same_spec(b) && x.entries_same(y),
            _ => false,
        }
    }

    fn compare(&self, other: &Self) -> (r: bool)
        ensures
            r == self.entries_same(other),
        decreases self,
    {
        match (self, other) {
            (DataList::Nil, DataList::Nil) => true,
            (DataList::Cons(a, x), DataList::Cons(b, y)) => a.same(b) && x.compare(y),
            _ => false,
        }
    }

    fn copy(&self) -> (r: Self)
        ensures
            r == *self,
        decreases self,
    {
        match self {
            DataList::Nil => DataList::Nil,
            DataList::Cons(head, tail) => DataList::Cons(head.duplicate(), Box::new(tail.copy())),
        }
    }
}

impl<T: Data> Data for DataList<T> {
    open spec fn same_spec(&self, other: &Self) -> bool {
        self.entries_same(other)
    }

    fn same(&self, other: &Self) -> (r: bool) {
        self.compare(other)
    }

    fn duplicate(&self) -> (r: Self) {
        self.copy()
    }
}

} // verus!
