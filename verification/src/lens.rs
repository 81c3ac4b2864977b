//! Projections: a lens reads a part out of a larger value and writes a changed
//! part back. A lens owns no state.

use vstd::prelude::*;
use std::marker::PhantomData;
use crate::geometry::Vec2;

verus! {

/// A view from `T` onto a part of it of type `U`.
///
/// Every implementation proves the two laws that make the part behave like a
/// field: writing back what was read changes nothing, and what is written is
/// what is read next.
pub trait Lens<T, U>: Sized {
    /// The part that the lens shows of `outer`.
    spec fn get_spec(&self, outer: &T) -> U;

    /// `outer` with the part replaced by `inner`.
    spec fn put_spec(&self, outer: T, inner: U) -> T;

    /// Reading and writing back the same part is a no-op.
    proof fn lemma_get_put(&self, outer: T)
        ensures
            self.put_spec(outer, self.get_spec(&outer)) == outer,
    ;

    /// What was written is what is read.
    proof fn lemma_put_get(&self, outer: T, inner: U)
        ensures
            self.get_spec(&self.put_spec(outer, inner)) == inner,
    ;

    /// Read access to the part.
    fn get<'a>(&self, outer: &'a T) -> (r: &'a U)
        ensures
            *r == self.get_spec(outer),
    ;

    /// Write access to the part: whatever the caller leaves in it is written back.
    fn get_mut<'a>(&self, outer: &'a mut T) -> (r: &'a mut U)
        ensures
            *r == self.get_spec(old(outer)),
            *final(outer) == self.put_spec(*old(outer), *final(r)),
    ;
}

/// Replaces the part of `outer` that `lens` shows.
pub fn put<T, U, L: Lens<T, U>>(lens: &L, outer: &mut T, inner: U)
    ensures
        *final(outer) == lens.put_spec(*old(outer), inner),
{
    let part = lens.get_mut(outer);
    *part = inner;
}

/// The lens that shows the whole value.
#[derive(Clone, Copy, Debug)]
pub struct Identity;

impl<T> Lens<T, T> for Identity {
    open spec fn get_spec(&self, outer: &T) -> T {
        *outer
    }

    open spec fn put_spec(&self, outer: T, inner: T) -> T {
        inner
    }

    proof fn lemma_get_put(&self, outer: T) {
    }

    proof fn lemma_put_get(&self, outer: T, inner: T) {
    }

    fn get<'a>(&self, outer: &'a T) -> (r: &'a T) {
        outer
    }

    fn get_mut<'a>(&self, outer: &'a mut T) -> (r: &'a mut T) {
        outer
    }
}

/// Two lenses in a row: `first` from `T` to `U`, `second` from `U` to `V`.
pub struct Then<L1, L2, U> {
    pub first: L1,
    pub second: L2,
    pub phantom: PhantomData<U>,
}

impl<L1, L2, U> Then<L1, L2, U> {
    pub fn new(first: L1, second: L2) -> (r: Self)
        ensures
            r.first == first,
            r.second == second,
    {
        Then { first, second, phantom: PhantomData }
    }
}

/// What `first` then `second` shows of `outer`.
pub open spec fn then_get<T, U, V, L1: Lens<T, U>, L2: Lens<U, V>>(
    first: &L1,
    second: &L2,
    outer: &T,
) -> V {
    second.get_spec(&first.get_spec(outer))
}

/// `outer` with the part that `first` then `second` shows replaced by `inner`.
pub open spec fn then_put<T, U, V, L1: Lens<T, U>, L2: Lens<U, V>>(
    first: &L1,
    second: &L2,
    outer: T,
    inner: V,
) -> T {
    first.put_spec(outer, second.put_spec(first.get_spec(&outer), inner))
}

/// Two lawful lenses in a row are lawful: writing back what was read through
/// both changes nothing.
pub proof fn lemma_then_get_put<T, U, V, L1: Lens<T, U>, L2: Lens<U, V>>(
    first: &L1,
    second: &L2,
    outer: T,
)
    ensures
        then_put(first, second, outer, then_get(first, second, &outer)) == outer,
{
    second.lemma_get_put(first.get_spec(&outer));
    first.lemma_get_put(outer);
}

/// Two lawful lenses in a row are lawful: what was written through both is
/// what is read through both.
pub proof fn lemma_then_put_get<T, U, V, L1: Lens<T, U>, L2: Lens<U, V>>(
    first: &L1,
    second: &L2,
    outer: T,
    inner: V,
)
    ensures
        then_get(first, second, &then_put(first, second, outer, inner)) == inner,
{
    let middle = second.put_spec(first.get_spec(&outer), inner);
    first.lemma_put_get(outer, middle);
    second.lemma_put_get(first.get_spec(&outer), inner);
}

/// Writing back through a lens what was read through it leaves the outer
/// value as it was.
pub proof fn lemma_round_trip<T, U, L: Lens<T, U>>(lens: &L, outer: T)
    ensures
        lens.put_spec(outer, lens.get_spec(&outer)) == outer,
{
    lens.lemma_get_put(outer);
}

/// Composition is associative: three lenses in a row read and write the same
/// whichever two are joined first.
pub proof fn lemma_then_associative<T, U, V, W, L1: Lens<T, U>, L2: Lens<U, V>, L3: Lens<V, W>>(
    a: &L1,
    b: &L2,
    c: &L3,
    outer: T,
    inner: W,
)
    ensures
        c.get_spec(&then_get(a, b, &outer)) == then_get(b, c, &a.get_spec(&outer)),
        then_put(a, b, outer, c.put_spec(then_get(a, b, &outer), inner)) == a.put_spec(
            outer,
            then_put(b, c, a.get_spec(&outer), inner),
        ),
{
}

/// The lens onto the horizontal part of a displacement.
#[derive(Clone, Copy, Debug)]
pub struct Vec2X;

impl Lens<Vec2, i64> for Vec2X {
    open spec fn get_spec(&self, outer: &Vec2) -> i64 {
        outer.x
    }

    open spec fn put_spec(&self, outer: Vec2, inner: i64) -> Vec2 {
        Vec2 { x: inner, ..outer }
    }

    proof fn lemma_get_put(&self, outer: Vec2) {
    }

    proof fn lemma_put_get(&self, outer: Vec2, inner: i64) {
    }

    fn get<'a>(&self, outer: &'a Vec2) -> (r: &'a i64) {
        &outer.x
    }

    fn get_mut<'a>(&self, outer: &'a mut Vec2) -> (r: &'a mut i64) {
        &mut outer.x
    }
}

/// The lens onto the vertical part of a displacement.
#[derive(Clone, Copy, Debug)]
pub struct Vec2Y;

impl Lens<Vec2, i64> for Vec2Y {
    open spec fn get_spec(&self, outer: &Vec2) -> i64 {
        outer.y
    }

    open spec fn put_spec(&self, outer: Vec2, inner: i64) -> Vec2 {
        Vec2 { y: inner, ..outer }
    }

    proof fn lemma_get_put(&self, outer: Vec2) {
    }

    proof fn lemma_put_get(&self, outer: Vec2, inner: i64) {
    }

    fn get<'a>(&self, outer: &'a Vec2) -> (r: &'a i64) {
        &outer.y
    }

    fn get_mut<'a>(&self, outer: &'a mut Vec2) -> (r: &'a mut i64) {
        &mut outer.y
    }
}

impl<T, U: 'static, V, L1: Lens<T, U>, L2: Lens<U, V>> Lens<T, V> for Then<L1, L2, U> {
    open spec fn get_spec(&self, outer: &T) -> V {
        then_get(&self.first, &self.second, outer)
    }

    open spec fn put_spec(&self, outer: T, inner: V) -> T {
        then_put(&self.first, &self.second, outer, inner)
    }

    proof fn lemma_get_put(&self, outer: T) {
        lemma_then_get_put(&self.first, &self.second, outer);
    }

    proof fn lemma_put_get(&self, outer: T, inner: V) {
        lemma_then_put_get(&self.first, &self.second, outer, inner);
    }

    fn get<'a>(&self, outer: &'a T) -> (r: &'a V) {
        self.second.get(self.first.get(outer))
    }

    fn get_mut<'a>(&self, outer: &'a mut T) -> (r: &'a mut V) {
        self.second.get_mut(self.first.get_mut(outer))
    }
}

} // verus!
