//! Aggregates over borrowed element sequences, and the two deterministic
//! fillings that the boundary uses.
use vstd::prelude::*;

verus! {

/// The sum of all elements, as a mathematical integer. The empty sequence sums to zero.
pub open spec fn seq_sum(s: Seq<i32>) -> int
    decreases s.len(),
{
    if s.len() == 0 {
        0
    } else {
        seq_sum(s.drop_last()) + s.last()
    }
}

/// The greatest element. The empty sequence has none, and stands for zero.
pub open spec fn seq_max(s: Seq<i32>) -> int
    decreases s.len(),
{
    if s.len() == 0 {
        0
    } else if s.len() == 1 {
        s[0] as int
    } else if s.last() > seq_max(s.drop_last()) {
        s.last() as int
    } else {
        seq_max(s.drop_last())
    }
}

/// Whether a mathematical integer can be returned across the boundary as a 32-bit value.
pub open spec fn fits_i32(x: int) -> bool {
    i32::MIN <= x <= i32::MAX
}

/// The value that a freshly allocated array holds at index `i`: the index itself,
/// cut down to 32 bits.
pub open spec fn index_value(i: int) -> i32 {
    i as i32
}

/// The sequence in which every even element has given way to `-1`.
pub open spec fn without_even(s: Seq<i32>) -> Seq<i32> {
    Seq::new(s.len(), |i: int| if s[i] % 2 == 0 { -1i32 } else { s[i] })
}

/// The sum of a prefix one element longer is the shorter prefix's sum plus that element.
pub proof fn lemma_sum_step(s: Seq<i32>, i: int)
    requires
        0 <= i < s.len(),
    ensures
        seq_sum(s.take(i + 1)) == seq_sum(s.take(i)) + s[i],
{
    assert(s.take(i + 1).drop_last() =~= s.take(i));
}

/// The greatest element of a prefix one element longer.
pub proof fn lemma_max_step(s: Seq<i32>, i: int)
    requires
        0 < i < s.len(),
    ensures
        seq_max(s.take(i + 1)) == if s[i] > seq_max(s.take(i)) {
            s[i] as int
        } else {
            seq_max(s.take(i))
        },
{
    assert(s.take(i + 1).drop_last() =~= s.take(i));
}

/// The greatest element of a non-empty sequence is one of its elements, and none exceeds it.
pub proof fn lemma_max_is_greatest(s: Seq<i32>)
    requires
        s.len() > 0,
    ensures
        exists|i: int| 0 <= i < s.len() && s[i] == seq_max(s),
        forall|i: int| 0 <= i < s.len() ==> s[i] <= seq_max(s),
    decreases s.len(),
{
    if s.len() == 1 {
        assert(s[0] == seq_max(s));
    } else {
        let front = s.drop_last();
        lemma_max_is_greatest(front);
        let k = choose|i: int| 0 <= i < front.len() && front[i] == seq_max(front);
        if s.last() > seq_max(front) {
            assert(s[s.len() - 1] == seq_max(s));
        } else {
            assert(s[k] == seq_max(s));
        }
        assert forall|i: int| 0 <= i < s.len() implies s[i] <= seq_max(s) by {
            if i < front.len() {
                assert(front[i] == s[i]);
            }
        }
    }
}

/// Sums a borrowed view. Returns `None` exactly when the sum cannot be told in 32 bits.
pub fn checked_sum(view: &[i32]) -> (sum: Option<i32>)
    ensures
        fits_i32(seq_sum(view@)) ==> sum == Some(seq_sum(view@) as i32),
        !fits_i32(seq_sum(view@)) ==> sum is None,
{
    let mut acc: i128 = 0;
    let mut i: usize = 0;
    while i < view.len()
        invariant
            i <= view.len(),
            acc == seq_sum(view@.take(i as int)),
            -0x8000_0000 * i <= acc <= 0x7fff_ffff * i,
        decreases view.len() - i,
    {
        proof {
            lemma_sum_step(view@, i as int);
        }
        acc = acc + view[i] as i128;
        i = i + 1;
    }
    assert(view@.take(i as int) =~= view@);
    if acc < -0x8000_0000 || acc > 0x7fff_ffff {
        None
    } else {
        Some(acc as i32)
    }
}

/// Sums a borrowed view whose sum can be told in 32 bits.
pub fn sum(view: &[i32]) -> (sum: i32)
    requires
        fits_i32(seq_sum(view@)),
    ensures
        sum == seq_sum(view@),
        view@.len() == 0 ==> sum == 0,
{
    match checked_sum(view) {
        Some(s) => s,
        None => vstd::pervasive::unreached(),
    }
}

/// The greatest element of a borrowed view, and zero where the view is empty.
pub fn max_or_zero(view: &[i32]) -> (max: i32)
    ensures
        max == seq_max(view@),
        view@.len() == 0 ==> max == 0,
        view@.len() > 0 ==> view@.contains(max) && forall|i: int|
            0 <= i < view@.len() ==> view@[i] <= max,
{
    if view.len() == 0 {
        return 0;
    }
    let mut max: i32 = view[0];
    let mut i: usize = 1;
    assert(view@.take(1).len() == 1);
    while i < view.len()
        invariant
            1 <= i <= view.len(),
            max == seq_max(view@.take(i as int)),
        decreases view.len() - i,
    {
        proof {
            lemma_max_step(view@, i as int);
        }
        if view[i] > max {
            max = view[i];
        }
        i = i + 1;
    }
    proof {
        assert(view@.take(i as int) =~= view@);
        lemma_max_is_greatest(view@);
        let k = choose|k: int| 0 <= k < view@.len() && view@[k] == seq_max(view@);
        assert(view@[k] == max);
    }
    max
}

/// A new array of `len` elements in which element `i` holds `i`, cut down to 32 bits.
pub fn index_values(len: usize) -> (values: Vec<i32>)
    ensures
        values@.len() == len,
        forall|i: int| 0 <= i < len ==> #[trigger] values@[i] == index_value(i),
        forall|i: int| 0 <= i < len && i <= i32::MAX ==> #[trigger] values@[i] == i,
{
    let mut values: Vec<i32> = Vec::new();
    let mut n: usize = 0;
    while n < len
        invariant
            n <= len,
            values@.len() == n,
            forall|i: int| 0 <= i < n ==> #[trigger] values@[i] == index_value(i),
        decreases len - n,
    {
        let value: i32 = #[verifier::truncate]
        (n as i32);
        values.push(value);
        n = n + 1;
    }
    values
}

/// Overwrites every even element of a mutable view with `-1`, in place.
pub fn replace_even(view: &mut [i32])
    ensures
        final(view)@ == without_even(old(view)@),
{
    let ghost before = view@;
    let mut i: usize = 0;
    while i < view.len()
        invariant
            view@.len() == before.len(),
            i <= view@.len(),
            forall|k: int| 0 <= k < i ==> view@[k] == without_even(before)[k],
            forall|k: int| i <= k < view@.len() ==> view@[k] == before[k],
        decreases view.len() - i,
    {
        if view[i] % 2 == 0 {
            view[i] = -1;
        }
        i = i + 1;
    }
    assert(view@ =~= without_even(before));
}

} // verus!
