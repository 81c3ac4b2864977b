//! Placing items one behind the other along an axis.

use vstd::prelude::*;
use crate::geometry::{saturate, spec_max, Axis, Rect, Size};

verus! {

/// The place along the line at which the item at place `i` starts, given
/// the sizes that the items took.
pub open spec fn spec_offset(sizes: Seq<Size>, axis: Axis, i: int) -> i64
    decreases i,
{
    if i <= 0 {
        0
    } else {
        saturate(spec_offset(sizes, axis, i - 1) + axis.spec_major(sizes[i - 1]))
    }
}

/// The largest extent across the line among the first `i` items.
pub open spec fn spec_tallest(sizes: Seq<Size>, axis: Axis, i: int) -> i64
    decreases i,
{
    if i <= 0 {
        0
    } else {
        spec_max(
            spec_tallest(sizes, axis, i - 1) as int,
            axis.spec_minor(sizes[i - 1]) as int,
        ) as i64
    }
}

/// Where the item at place `i` lies once every item has been measured:
/// behind the items before it.
pub open spec fn spec_measured(sizes: Seq<Size>, axis: Axis, i: int) -> Rect {
    Rect::spec_from_origin_size(axis.spec_pack_point(spec_offset(sizes, axis, i), 0), sizes[i])
}

/// Where the item at place `i` lies in the end: where it was measured,
/// and as far across the line as the largest item.
pub open spec fn spec_placed(sizes: Seq<Size>, axis: Axis, i: int, tallest: i64) -> Rect {
    let measured = spec_measured(sizes, axis, i);
    measured.spec_with_size(axis.spec_pack_size(axis.spec_major(measured.spec_size()), tallest))
}

/// The places at which items start depend on the sizes before them alone.
pub proof fn lemma_offsets_prefix(a: Seq<Size>, b: Seq<Size>, axis: Axis, i: int)
    requires
        0 <= i <= a.len(),
        i <= b.len(),
        forall|p: int| 0 <= p < i ==> a[p] == b[p],
    ensures
        spec_offset(a, axis, i) == spec_offset(b, axis, i),
        spec_tallest(a, axis, i) == spec_tallest(b, axis, i),
    decreases i,
{
    if i > 0 {
        lemma_offsets_prefix(a, b, axis, i - 1);
    }
}

/// The places at which items start do not fall, where no item has a
/// negative size.
pub proof fn lemma_offsets_rise(sizes: Seq<Size>, axis: Axis, i: int, j: int)
    requires
        0 <= i <= j <= sizes.len(),
        forall|p: int| 0 <= p < sizes.len() ==> (#[trigger] sizes[p]).wf(),
    ensures
        0 <= spec_offset(sizes, axis, i) <= spec_offset(sizes, axis, j),
    decreases j,
{
    if j > 0 {
        if i < j {
            lemma_offsets_rise(sizes, axis, i, j - 1);
            assert(sizes[j - 1].wf());
        } else {
            lemma_offsets_rise(sizes, axis, i - 1, j - 1);
            assert(sizes[j - 1].wf());
        }
    }
}

/// An item that is placed reaches as far along the line as the next item
/// starts.
pub proof fn lemma_placed_far(sizes: Seq<Size>, axis: Axis, i: int, tallest: i64)
    requires
        0 <= i < sizes.len(),
        forall|p: int| 0 <= p < sizes.len() ==> (#[trigger] sizes[p]).wf(),
    ensures
        axis.spec_major_span(spec_placed(sizes, axis, i, tallest)).1 == spec_offset(
            sizes,
            axis,
            i + 1,
        ),
{
    lemma_offsets_rise(sizes, axis, i, i);
    assert(sizes[i].wf());
}


} // verus!
