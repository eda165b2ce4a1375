//! Arrays, slices and vectors handed across as borrowed or owned values.
use crate::aggregate::{fits_i32, max_or_zero, seq_max, seq_sum, sum};
use std::cmp::Ordering;
use vstd::prelude::*;

verus! {

/// Whether a sequence runs from its greatest element down to its least.
pub open spec fn is_descending(s: Seq<i32>) -> bool {
    forall|i: int, j: int| 0 <= i <= j < s.len() ==> s[i] >= s[j]
}

/// The sum of the elements of a borrowed array; zero for an empty one.
pub fn cc_array_sum(arr: &[i32]) -> (total: i32)
    requires
        fits_i32(seq_sum(arr@)),
    ensures
        total == seq_sum(arr@),
        arr@.len() == 0 ==> total == 0,
{
    sum(arr)
}

/// The greatest element of a borrowed slice; zero for an empty one.
pub fn cc_slice_max(slice: &[i32]) -> (max: i32)
    ensures
        max == seq_max(slice@),
        slice@.len() == 0 ==> max == 0,
        slice@.len() > 0 ==> slice@.contains(max) && forall|i: int|
            0 <= i < slice@.len() ==> slice@[i] <= max,
{
    max_or_zero(slice)
}

/// Orders two elements so that the greater one comes first.
pub fn greater_first(x: &i32, y: &i32) -> (o: Ordering)
    ensures
        *x > *y <==> o == Ordering::Less,
        *x == *y <==> o == Ordering::Equal,
        *x < *y <==> o == Ordering::Greater,
{
    if *x > *y {
        Ordering::Less
    } else if *x < *y {
        Ordering::Greater
    } else {
        Ordering::Equal
    }
}

/// Calls `sort_unstable_by` of the standard library with [`greater_first`].
/// Trusted: the slice afterwards holds the elements it held before, each as
/// often as before, and no element is followed by a greater one.
#[verifier::external_body]
fn sort_greater_first(slice: &mut [i32])
    ensures
        final(slice)@.to_multiset() == old(slice)@.to_multiset(),
        final(slice)@.len() == old(slice)@.len(),
        is_descending(final(slice)@),
{
    slice.sort_unstable_by(|x, y| greater_first(x, y));
}

/// Sorts a mutable slice in place, greatest element first, and hands the same slice back.
pub fn cc_sort_slice<'a>(slice: &'a mut [i32]) -> (sorted: &'a mut [i32])
    ensures
        sorted@.to_multiset() == old(slice)@.to_multiset(),
        sorted@.len() == old(slice)@.len(),
        is_descending(sorted@),
        final(slice)@ == final(sorted)@,
{
    sort_greater_first(slice);
    slice
}

/// A new vector that holds `from`, `from + 1`, ... up to, not including, `to`;
/// empty where `from` is not below `to`.
pub fn cc_create_vec(from: i32, to: i32) -> (values: Vec<i32>)
    ensures
        from < to ==> values@.len() == to - from,
        from >= to ==> values@.len() == 0,
        forall|i: int| 0 <= i < values@.len() ==> #[trigger] values@[i] == from + i,
{
    let mut values: Vec<i32> = Vec::new();
    let mut next: i32 = from;
    while next < to
        invariant
            from <= next,
            next <= to || next == from,
            values@.len() == next - from,
            forall|i: int| 0 <= i < values@.len() ==> #[trigger] values@[i] == from + i,
        decreases to - next,
    {
        values.push(next);
        next = next + 1;
    }
    values
}

} // verus!
