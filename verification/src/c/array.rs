//! Arrays that cross as an address and a length: lent by the caller for the
//! length of a call, or allocated by the core and handed over.
//!
//! The core has two allocators for arrays. An array is released by the
//! function that belongs to the allocator that made it, with the length it
//! was made with; the arena is not asked whether that holds.
use crate::aggregate::{
    fits_i32, index_value, index_values, replace_even, seq_max, seq_sum, sum, without_even,
};
use crate::arena::{Allocation, Arena, Contents, Lifecycle, Memory, Origin, Payload, NULL};
use vstd::prelude::*;

verus! {

/// The block that an array allocator makes for `len` elements: element `i` holds `i`.
pub open spec fn array_block(origin: Origin, len: nat) -> Allocation {
    Allocation { origin, contents: Contents::Ints(Seq::new(len, |i: int| index_value(i))) }
}

/// Whether the block at `arr` is an array of exactly `len` elements that `origin` allocated.
pub open spec fn is_array_of(memory: Memory, arr: usize, len: nat, origin: Origin) -> bool {
    &&& memory.holds_ints(arr, len)
    &&& memory.ints(arr).len() == len
    &&& memory.live[arr].origin == origin
}

/// An array that is allocated and released again leaves no block behind, and
/// held, while it lived, its own index at every place.
pub proof fn lemma_array_comes_and_goes(memory: Memory, origin: Origin, len: nat)
    requires
        memory.wf(),
        memory.has_room(),
    ensures
        ({
            let arr = memory.frontier as usize;
            let created = memory.allocate(array_block(origin, len));
            &&& is_array_of(created, arr, len, origin)
            &&& forall|i: int| 0 <= i < len ==> #[trigger] created.ints(arr)[i] == index_value(i)
            &&& created.release(arr).live == memory.live
            &&& created.release(arr).state(arr) == Lifecycle::Destroyed
        }),
{
    let arr = memory.frontier as usize;
    let created = memory.allocate(array_block(origin, len));
    assert(!memory.live.contains_key(arr));
    assert(created.release(arr).live =~= memory.live);
}

/// A window of length zero reads nothing and writes nothing, whatever the
/// address: it is empty, and putting anything in its place leaves the memory as it was.
pub proof fn lemma_empty_window(memory: Memory, arr: usize, view: Seq<i32>)
    ensures
        memory.window(arr, 0) == Seq::<i32>::empty(),
        seq_sum(memory.window(arr, 0)) == 0,
        seq_max(memory.window(arr, 0)) == 0,
        memory.with_window(arr, 0, view) == memory,
{
}

/// The null address holds no array: a call that names it with a length other
/// than zero does not meet the contract of any function that borrows.
pub proof fn lemma_null_holds_nothing(memory: Memory, len: nat)
    requires
        memory.wf(),
    ensures
        !memory.holds_ints(NULL, len),
        memory.state(NULL) == Lifecycle::Vacant,
{
}

/// The sum of the `len` elements at `arr`; zero where `len` is zero.
pub fn c_array_sum(arena: &Arena, arr: usize, len: usize) -> (total: i32)
    requires
        len == 0 || arena@.holds_ints(arr, len as nat),
        fits_i32(seq_sum(arena@.window(arr, len as nat))),
    ensures
        total == seq_sum(arena@.window(arr, len as nat)),
        len == 0 ==> total == 0,
{
    sum(arena.borrow_read(arr, len))
}

/// Overwrites every even element among the `len` elements at `arr` with `-1`.
/// The change is in the caller's memory when the call returns.
pub fn c_remove_even_num(arena: &mut Arena, arr: usize, len: usize)
    requires
        len == 0 || old(arena)@.holds_ints(arr, len as nat),
    ensures
        final(arena)@ == old(arena)@.with_window(
            arr,
            len as nat,
            without_even(old(arena)@.window(arr, len as nat)),
        ),
        len == 0 ==> final(arena)@ == old(arena)@,
{
    let view = arena.borrow_write(arr, len);
    replace_even(view);
}

/// Allocates `len` elements with the vector allocator, element `i` holding
/// `i`, and hands the array over. Release it with [`c_free_array_by_vec`].
pub fn c_create_array_by_vec(arena: &mut Arena, len: usize) -> (arr: usize)
    requires
        old(arena)@.has_room(),
    ensures
        arr == old(arena)@.frontier,
        arr != NULL,
        final(arena)@ == old(arena)@.allocate(array_block(Origin::VecAllocator, len as nat)),
        is_array_of(final(arena)@, arr, len as nat, Origin::VecAllocator),
{
    let values = index_values(len);
    assert(values@ =~= Seq::new(len as nat, |i: int| index_value(i)));
    arena.allocate(Origin::VecAllocator, Payload::Ints(values))
}

/// Takes back an array of `len` elements that [`c_create_array_by_vec`] handed over.
pub fn c_free_array_by_vec(arena: &mut Arena, arr: usize, len: usize)
    requires
        is_array_of(old(arena)@, arr, len as nat, Origin::VecAllocator),
    ensures
        final(arena)@ == old(arena)@.release(arr),
        final(arena)@.state(arr) == Lifecycle::Destroyed,
{
    let _ = arena.release(arr);
}

/// Allocates `len` elements with the block allocator, element `i` holding
/// `i`, and hands the array over. Release it with [`c_free_array_by_box`].
pub fn c_create_array_by_box(arena: &mut Arena, len: usize) -> (arr: usize)
    requires
        old(arena)@.has_room(),
    ensures
        arr == old(arena)@.frontier,
        arr != NULL,
        final(arena)@ == old(arena)@.allocate(array_block(Origin::BoxAllocator, len as nat)),
        is_array_of(final(arena)@, arr, len as nat, Origin::BoxAllocator),
{
    let values = index_values(len);
    assert(values@ =~= Seq::new(len as nat, |i: int| index_value(i)));
    arena.allocate(Origin::BoxAllocator, Payload::Ints(values))
}

/// Takes back an array of `len` elements that [`c_create_array_by_box`] handed over.
pub fn c_free_array_by_box(arena: &mut Arena, arr: usize, len: usize)
    requires
        is_array_of(old(arena)@, arr, len as nat, Origin::BoxAllocator),
    ensures
        final(arena)@ == old(arena)@.release(arr),
        final(arena)@.state(arr) == Lifecycle::Destroyed,
{
    let _ = arena.release(arr);
}

} // verus!
