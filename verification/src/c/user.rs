//! A record with a fixed layout, by value and behind a handle.
//!
//! A handle is created by [`c_create_user_ptr`], read and written while it is
//! live, and destroyed by [`c_free_user`]. After that no function may be
//! called with it.
use crate::arena::{Allocation, Arena, Contents, Lifecycle, Memory, Origin, Payload, NULL};
use crate::c::gender::CGender;
use vstd::prelude::*;

verus! {

/// A record that both sides read alike. `name` is the address of a text that
/// the caller owns; the record borrows it and never releases it.
#[derive(Debug, PartialEq, Eq, Clone, Copy, Structural)]
pub struct CUser {
    pub name: usize,
    pub age: i32,
    pub level: i8,
    pub gender: CGender,
    pub register: bool,
}

/// The record that the constructors make: not registered yet.
pub open spec fn new_user(name: usize, age: i32, level: i8, gender: CGender) -> CUser {
    CUser { name, age, level, gender, register: false }
}

/// The block in which the record allocator stores a record.
pub open spec fn record_block(record: CUser) -> Allocation {
    Allocation { origin: Origin::RecordAllocator, contents: Contents::Record(record) }
}

/// Whether `user` is a live handle of the record allocator.
pub open spec fn is_handle(memory: Memory, user: usize) -> bool {
    &&& memory.holds_record(user)
    &&& memory.live[user].origin == Origin::RecordAllocator
}

impl CUser {
    /// The record's gender.
    pub fn c_get_user_gender(&self) -> (gender: CGender)
        ensures
            gender == self.gender,
    {
        self.gender
    }

    /// Sets the record's gender and leaves the rest of it alone.
    pub fn c_set_user_gender(&mut self, gender: CGender)
        ensures
            *final(self) == (CUser { gender, ..*old(self) }),
    {
        self.gender = gender;
    }
}

/// A handle goes from vacant to live when it is created, stays live while
/// it is read and written, and is destroyed when it is freed. Up to then
/// every call on the way meets its contract; afterwards none can.
pub proof fn lemma_handle_lifecycle(memory: Memory, record: CUser, gender: CGender)
    requires
        memory.wf(),
        memory.has_room(),
    ensures
        ({
            let handle = memory.frontier as usize;
            let created = memory.allocate(record_block(record));
            let written = created.store(handle, Contents::Record(CUser { gender, ..record }));
            let destroyed = written.release(handle);
            &&& memory.state(handle) == Lifecycle::Vacant
            &&& created.state(handle) == Lifecycle::Live
            &&& is_handle(created, handle)
            &&& created.record(handle) == record
            &&& written.state(handle) == Lifecycle::Live
            &&& is_handle(written, handle)
            &&& written.record(handle).gender == gender
            &&& destroyed.state(handle) == Lifecycle::Destroyed
            &&& !destroyed.holds_record(handle)
            &&& destroyed.live == memory.live
        }),
{
    let handle = memory.frontier as usize;
    let created = memory.allocate(record_block(record));
    let written = created.store(handle, Contents::Record(CUser { gender, ..record }));
    assert(!memory.live.contains_key(handle));
    assert(written.release(handle).live =~= memory.live);
}

/// An address that was destroyed stays destroyed, whatever is allocated,
/// written or released afterwards.
pub proof fn lemma_destroyed_is_final(
    memory: Memory,
    ptr: usize,
    block: Allocation,
    other: usize,
    contents: Contents,
)
    requires
        memory.wf(),
        memory.state(ptr) == Lifecycle::Destroyed,
    ensures
        memory.has_room() ==> memory.allocate(block).state(ptr) == Lifecycle::Destroyed,
        memory.release(other).state(ptr) == Lifecycle::Destroyed,
        memory.live.contains_key(other) ==> memory.store(other, contents).state(ptr)
            == Lifecycle::Destroyed,
{
}

/// A new record, by value. The caller gets a copy of its own.
pub fn c_create_user(name: usize, age: i32, level: i8, gender: CGender) -> (user: CUser)
    ensures
        user == new_user(name, age, level, gender),
{
    CUser { name, age, level, gender, register: false }
}

/// A new record behind a handle. Destroy it with [`c_free_user`].
pub fn c_create_user_ptr(
    arena: &mut Arena,
    name: usize,
    age: i32,
    level: i8,
    gender: CGender,
) -> (user: usize)
    requires
        old(arena)@.has_room(),
    ensures
        user == old(arena)@.frontier,
        user != NULL,
        final(arena)@ == old(arena)@.allocate(record_block(new_user(name, age, level, gender))),
        is_handle(final(arena)@, user),
{
    let record = c_create_user(name, age, level, gender);
    arena.allocate(Origin::RecordAllocator, Payload::Record(record))
}

/// The address of the name of the record behind a live handle.
pub fn c_get_user_name(arena: &Arena, user: usize) -> (name: usize)
    requires
        arena@.holds_record(user),
    ensures
        name == arena@.record(user).name,
{
    arena.borrow_record(user).name
}

/// Destroys the record behind a handle that [`c_create_user_ptr`] handed out.
pub fn c_free_user(arena: &mut Arena, user: usize)
    requires
        is_handle(old(arena)@, user),
    ensures
        final(arena)@ == old(arena)@.release(user),
        final(arena)@.state(user) == Lifecycle::Destroyed,
{
    let _ = arena.release(user);
}

} // verus!
