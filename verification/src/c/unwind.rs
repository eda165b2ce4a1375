//! An entry point that tells its caller of a broken precondition instead of
//! ending the process.
use crate::aggregate::{max_or_zero, seq_max};
use crate::arena::{Arena, NULL};
use vstd::prelude::*;
use vstd::string::*;

verus! {

/// A precondition that the caller broke, told where the caller can catch it.
#[derive(Debug, PartialEq, Eq, Clone, Copy, Structural)]
pub enum Fault {
    /// The null address came with a length other than zero.
    NullPointer,
}

impl Fault {
    /// What the fault says of itself.
    pub fn message(&self) -> (text: String)
        ensures
            text@ == "'ptr' argument cannot be null"@,
    {
        String::from_str("'ptr' argument cannot be null")
    }
}

/// The fault, if any, in naming `size` elements at `ptr`: the null address
/// with a size other than zero. A size of zero is no fault, whatever the address.
pub fn null_fault(ptr: usize, size: usize) -> (fault: Option<Fault>)
    ensures
        ptr == NULL && size != 0 <==> fault == Some(Fault::NullPointer),
        !(ptr == NULL && size != 0) <==> fault is None,
{
    if ptr == NULL && size != 0 {
        Some(Fault::NullPointer)
    } else {
        None
    }
}

/// The greatest of the `size` elements at `ptr`, and zero where `size` is
/// zero. The null address with a `size` other than zero is a fault, which is
/// returned and not raised.
pub fn c_unwind_fn(arena: &Arena, ptr: usize, size: usize) -> (result: Result<i32, Fault>)
    requires
        ptr != NULL && size != 0 ==> arena@.holds_ints(ptr, size as nat),
    ensures
        ptr == NULL && size != 0 <==> result == Err::<i32, Fault>(Fault::NullPointer),
        !(ptr == NULL && size != 0) ==> result == Ok::<i32, Fault>(
            seq_max(arena@.window(ptr, size as nat)) as i32,
        ),
        size == 0 ==> result == Ok::<i32, Fault>(0),
{
    match null_fault(ptr, size) {
        Some(fault) => Err(fault),
        None => Ok(max_or_zero(arena.borrow_read(ptr, size))),
    }
}

} // verus!
