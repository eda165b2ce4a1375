//! The memory that both sides of the boundary can name: a table keyed by
//! address.
//!
//! An address is handed out once. A block is live from the call that handed
//! its address out to the call that took it back, and an address that was
//! taken back is never live again. Address zero is the null address and is
//! never handed out.
use crate::c::user::CUser;
use crate::text::{content_of, encode_text, has_no_nul, scan_len, terminated};
use vstd::utf8::{decode_utf8, encode_utf8};
use vstd::prelude::*;
use vstd::slice::slice_subrange;
use vstd::string::*;

verus! {

/// The null address.
pub const NULL: usize = 0;

/// Who allocated a block. Only the release function that belongs to a block's
/// origin may take the block back.
#[derive(Debug, PartialEq, Eq, Clone, Copy, Structural)]
pub enum Origin {
    /// The caller's own memory, lent to the core for the length of a call.
    Caller,
    /// The core's growable-vector allocator.
    VecAllocator,
    /// The core's fixed-size block allocator.
    BoxAllocator,
    /// The core's allocator for terminated text.
    TextAllocator,
    /// The core's allocator for single records.
    RecordAllocator,
}

/// Where an address stands in its life.
#[derive(Debug, PartialEq, Eq, Clone, Copy, Structural)]
pub enum Lifecycle {
    /// Not handed out yet, or the null address.
    Vacant,
    /// Handed out and not taken back.
    Live,
    /// Taken back. No call may name the address again.
    Destroyed,
}

/// What a block holds, as stored.
#[derive(Debug)]
pub enum Payload {
    Ints(Vec<i32>),
    Text(Vec<u8>),
    Record(CUser),
}

/// A block of the table.
#[derive(Debug)]
pub struct Block {
    pub origin: Origin,
    pub payload: Payload,
}

/// What a block holds, as a value.
#[verifier::ext_equal]
pub enum Contents {
    Ints(Seq<i32>),
    Text(Seq<u8>),
    Record(CUser),
}

/// A live block, as a value.
#[verifier::ext_equal]
pub struct Allocation {
    pub origin: Origin,
    pub contents: Contents,
}

/// The whole memory, as a value: the live blocks by address, and the address
/// that the next allocation will hand out.
#[verifier::ext_equal]
pub struct Memory {
    pub live: Map<usize, Allocation>,
    pub frontier: nat,
}

impl View for Payload {
    type V = Contents;

    open spec fn view(&self) -> Contents {
        match self {
            Payload::Ints(v) => Contents::Ints(v@),
            Payload::Text(v) => Contents::Text(v@),
            Payload::Record(r) => Contents::Record(*r),
        }
    }
}

impl View for Block {
    type V = Allocation;

    open spec fn view(&self) -> Allocation {
        Allocation { origin: self.origin, contents: self.payload@ }
    }
}

impl Memory {
    /// Every live address lies above null and below the frontier.
    pub open spec fn wf(self) -> bool {
        &&& self.frontier >= 1
        &&& forall|p: usize| #[trigger] self.live.contains_key(p) ==> 0 < p < self.frontier
    }

    /// Where `ptr` stands in its life.
    pub open spec fn state(self, ptr: usize) -> Lifecycle {
        if self.live.contains_key(ptr) {
            Lifecycle::Live
        } else if 0 < ptr < self.frontier {
            Lifecycle::Destroyed
        } else {
            Lifecycle::Vacant
        }
    }

    /// Whether one more address can be handed out.
    pub open spec fn has_room(self) -> bool {
        self.frontier <= usize::MAX
    }

    /// The memory after a new block went live at the frontier.
    pub open spec fn allocate(self, block: Allocation) -> Memory {
        Memory { live: self.live.insert(self.frontier as usize, block), frontier: self.frontier + 1 }
    }

    /// The memory after the block at `ptr` was taken back.
    pub open spec fn release(self, ptr: usize) -> Memory {
        Memory { live: self.live.remove(ptr), frontier: self.frontier }
    }

    /// The memory after the block at `ptr` got new contents.
    pub open spec fn store(self, ptr: usize, contents: Contents) -> Memory {
        Memory {
            live: self.live.insert(ptr, Allocation { origin: self.live[ptr].origin, contents }),
            frontier: self.frontier,
        }
    }

    /// Whether a live block of at least `len` elements starts at `ptr`.
    pub open spec fn holds_ints(self, ptr: usize, len: nat) -> bool {
        &&& self.live.contains_key(ptr)
        &&& self.live[ptr].contents matches Contents::Ints(elements)
        &&& len <= elements.len()
    }

    /// Whether a live text starts at `ptr`.
    pub open spec fn holds_text(self, ptr: usize) -> bool {
        &&& self.live.contains_key(ptr)
        &&& self.live[ptr].contents is Text
    }

    /// Whether a live record stands at `ptr`.
    pub open spec fn holds_record(self, ptr: usize) -> bool {
        &&& self.live.contains_key(ptr)
        &&& self.live[ptr].contents is Record
    }

    /// The elements of the block at `ptr`.
    pub open spec fn ints(self, ptr: usize) -> Seq<i32> {
        match self.live[ptr].contents {
            Contents::Ints(elements) => elements,
            _ => Seq::empty(),
        }
    }

    /// The stored bytes of the text at `ptr`.
    pub open spec fn text(self, ptr: usize) -> Seq<u8> {
        match self.live[ptr].contents {
            Contents::Text(bytes) => bytes,
            _ => Seq::empty(),
        }
    }

    /// The record at `ptr`.
    pub open spec fn record(self, ptr: usize) -> CUser {
        match self.live[ptr].contents {
            Contents::Record(record) => record,
            _ => arbitrary(),
        }
    }

    /// The first `len` elements at `ptr`. A window of length zero is empty
    /// whatever `ptr` is: it reads no memory.
    pub open spec fn window(self, ptr: usize, len: nat) -> Seq<i32> {
        if len == 0 {
            Seq::empty()
        } else {
            self.ints(ptr).take(len as int)
        }
    }

    /// The memory after the first `len` elements at `ptr` gave way to `view`.
    /// A window of length zero changes nothing.
    pub open spec fn with_window(self, ptr: usize, len: nat, view: Seq<i32>) -> Memory {
        if len == 0 {
            self
        } else {
            self.store(ptr, Contents::Ints(view + self.ints(ptr).skip(len as int)))
        }
    }
}

/// The table itself. The block at address `p` stands in slot `p - 1`; a slot
/// is emptied when its block is taken back, and never filled again.
pub struct Arena {
    slots: Vec<Option<Block>>,
}

impl View for Arena {
    type V = Memory;

    closed spec fn view(&self) -> Memory {
        Memory {
            live: Map::new(
                |p: usize| 0 < p <= self.slots@.len() && self.slots@[p - 1] is Some,
                |p: usize| self.slots@[p - 1]->0@,
            ),
            frontier: self.slots@.len() + 1,
        }
    }
}

impl Arena {
    /// The live addresses up to and including `bound`.
    spec fn live_below(&self, bound: int) -> Set<usize> {
        Set::new(|p: usize| 0 < p <= bound && p <= self.slots@.len() && self.slots@[p - 1] is Some)
    }

    /// The memory of every arena is well formed.
    pub proof fn lemma_view_is_wf(&self)
        ensures
            self@.wf(),
    {
    }

    /// An arena in which nothing was allocated yet.
    pub fn new() -> (arena: Arena)
        ensures
            arena@.live == Map::<usize, Allocation>::empty(),
            arena@.frontier == 1,
            arena@.wf(),
    {
        let arena = Arena { slots: Vec::new() };
        assert(arena@.live =~= Map::<usize, Allocation>::empty());
        arena
    }

    /// Whether one more address can be handed out.
    pub fn can_allocate(&self) -> (room: bool)
        ensures
            room == self@.has_room(),
    {
        self.slots.len() < usize::MAX
    }

    /// Where `ptr` stands in its life.
    pub fn state(&self, ptr: usize) -> (state: Lifecycle)
        ensures
            state == self@.state(ptr),
    {
        if ptr == 0 || ptr > self.slots.len() {
            Lifecycle::Vacant
        } else if self.slots[ptr - 1].is_some() {
            Lifecycle::Live
        } else {
            Lifecycle::Destroyed
        }
    }

    /// The allocator of the block at `ptr`, if the address is live.
    pub fn origin_of(&self, ptr: usize) -> (origin: Option<Origin>)
        ensures
            origin is Some <==> self@.live.contains_key(ptr),
            origin matches Some(o) ==> o == self@.live[ptr].origin,
    {
        if ptr == 0 || ptr > self.slots.len() {
            return None;
        }
        match &self.slots[ptr - 1] {
            Some(block) => Some(block.origin),
            None => None,
        }
    }

    /// The number of elements of the array at `ptr`, if a live array starts there.
    pub fn array_len(&self, ptr: usize) -> (len: Option<usize>)
        ensures
            len is Some <==> self@.holds_ints(ptr, 0),
            len matches Some(n) ==> n == self@.ints(ptr).len(),
            forall|n: nat| self@.holds_ints(ptr, n) <==> len is Some && n <= len->0,
    {
        if ptr == 0 || ptr > self.slots.len() {
            return None;
        }
        match &self.slots[ptr - 1] {
            Some(block) => match &block.payload {
                Payload::Ints(elements) => Some(elements.len()),
                _ => None,
            },
            None => None,
        }
    }

    /// Whether a live text starts at `ptr`.
    pub fn is_text(&self, ptr: usize) -> (found: bool)
        ensures
            found == self@.holds_text(ptr),
    {
        if ptr == 0 || ptr > self.slots.len() {
            return false;
        }
        match &self.slots[ptr - 1] {
            Some(block) => match &block.payload {
                Payload::Text(_) => true,
                _ => false,
            },
            None => false,
        }
    }

    /// Whether a live record stands at `ptr`.
    pub fn is_record(&self, ptr: usize) -> (found: bool)
        ensures
            found == self@.holds_record(ptr),
    {
        if ptr == 0 || ptr > self.slots.len() {
            return false;
        }
        match &self.slots[ptr - 1] {
            Some(block) => match &block.payload {
                Payload::Record(_) => true,
                _ => false,
            },
            None => false,
        }
    }

    /// How many blocks are live: what has been handed out and not taken back.
    pub fn live_count(&self) -> (count: usize)
        ensures
            self@.live.dom().finite(),
            count == self@.live.len(),
    {
        let mut count: usize = 0;
        let mut i: usize = 0;
        assert(self.live_below(0) =~= Set::<usize>::empty());
        while i < self.slots.len()
            invariant
                i <= self.slots@.len(),
                count <= i,
                self.live_below(i as int).finite(),
                count == self.live_below(i as int).len(),
            decreases self.slots.len() - i,
        {
            if self.slots[i].is_some() {
                assert(self.live_below(i + 1) =~= self.live_below(i as int).insert((i + 1) as usize));
                count = count + 1;
            } else {
                assert(self.live_below(i + 1) =~= self.live_below(i as int));
            }
            i = i + 1;
        }
        assert(self.live_below(i as int) =~= self@.live.dom());
        count
    }

    /// Puts a block into the table and hands out its address: the frontier,
    /// which was never handed out before.
    pub fn allocate(&mut self, origin: Origin, payload: Payload) -> (ptr: usize)
        requires
            old(self)@.has_room(),
        ensures
            ptr == old(self)@.frontier,
            ptr != NULL,
            old(self)@.state(ptr) == Lifecycle::Vacant,
            final(self)@ == old(self)@.allocate(Allocation { origin, contents: payload@ }),
            final(self)@.wf(),
    {
        let ghost before = self@;
        let ghost block = Allocation { origin, contents: payload@ };
        self.slots.push(Some(Block { origin, payload }));
        let ptr = self.slots.len();
        assert(self@.live =~= before.allocate(block).live);
        ptr
    }

    /// Takes the live block at `ptr` out of the table. The address is
    /// destroyed: no later allocation hands it out again.
    pub fn release(&mut self, ptr: usize) -> (block: Block)
        requires
            old(self)@.live.contains_key(ptr),
        ensures
            block@ == old(self)@.live[ptr],
            final(self)@ == old(self)@.release(ptr),
            final(self)@.state(ptr) == Lifecycle::Destroyed,
            final(self)@.wf(),
    {
        let ghost before = self@;
        let taken = self.slots[ptr - 1].take();
        assert(self@.live =~= before.release(ptr).live);
        match taken {
            Some(block) => block,
            None => vstd::pervasive::unreached(),
        }
    }

    /// A read-only view of the first `len` elements at `ptr`. The view lasts
    /// no longer than the borrow of the arena. With `len == 0` no memory is
    /// read and the view is empty, whatever `ptr` is.
    pub fn borrow_read(&self, ptr: usize, len: usize) -> (view: &[i32])
        requires
            len == 0 || self@.holds_ints(ptr, len as nat),
        ensures
            view@ == self@.window(ptr, len as nat),
            view@.len() == len,
    {
        if len == 0 {
            let empty: &[i32] = &[];
            return empty;
        }
        match &self.slots[ptr - 1] {
            Some(block) => match &block.payload {
                Payload::Ints(elements) => slice_subrange(elements.as_slice(), 0, len),
                _ => vstd::pervasive::unreached(),
            },
            None => vstd::pervasive::unreached(),
        }
    }

    /// A view of the first `len` elements at `ptr` through which they can be
    /// changed in place. What is written through the view is in the arena
    /// when the view ends; nothing is copied back. With `len == 0` no memory
    /// is touched, whatever `ptr` is.
    pub fn borrow_write(&mut self, ptr: usize, len: usize) -> (view: &mut [i32])
        requires
            len == 0 || old(self)@.holds_ints(ptr, len as nat),
        ensures
            view@ == old(self)@.window(ptr, len as nat),
            view@.len() == len,
            final(self)@ == old(self)@.with_window(ptr, len as nat, final(view)@),
    {
        if len == 0 {
            let empty: &mut [i32] = &mut [];
            return empty;
        }
        match &mut self.slots[ptr - 1] {
            Some(block) => match &mut block.payload {
                Payload::Ints(elements) => {
                    let (head, tail) = elements.as_mut_slice().split_at_mut(len);
                    assert(tail@ == final(tail)@);
                    head
                },
                _ => vstd::pervasive::unreached(),
            },
            None => vstd::pervasive::unreached(),
        }
    }

    /// A read-only view of the content of the text at `ptr`: the bytes before
    /// its terminator.
    pub fn borrow_text(&self, ptr: usize) -> (content: &[u8])
        requires
            self@.holds_text(ptr),
        ensures
            content@ == content_of(self@.text(ptr)),
    {
        match &self.slots[ptr - 1] {
            Some(block) => match &block.payload {
                Payload::Text(bytes) => {
                    let len = scan_len(bytes.as_slice());
                    proof {
                        crate::text::lemma_text_len_bounds(bytes@);
                    }
                    slice_subrange(bytes.as_slice(), 0, len)
                },
                _ => vstd::pervasive::unreached(),
            },
            None => vstd::pervasive::unreached(),
        }
    }

    /// A read-only reference to the record at `ptr`.
    pub fn borrow_record(&self, ptr: usize) -> (record: &CUser)
        requires
            self@.holds_record(ptr),
        ensures
            *record == self@.record(ptr),
    {
        match &self.slots[ptr - 1] {
            Some(block) => match &block.payload {
                Payload::Record(record) => record,
                _ => vstd::pervasive::unreached(),
            },
            None => vstd::pervasive::unreached(),
        }
    }

    /// A reference to the record at `ptr` through which it can be changed in place.
    pub fn borrow_record_mut(&mut self, ptr: usize) -> (record: &mut CUser)
        requires
            old(self)@.holds_record(ptr),
        ensures
            *record == old(self)@.record(ptr),
            final(self)@ == old(self)@.store(ptr, Contents::Record(*final(record))),
    {
        match &mut self.slots[ptr - 1] {
            Some(block) => match &mut block.payload {
                Payload::Record(record) => record,
                _ => vstd::pervasive::unreached(),
            },
            None => vstd::pervasive::unreached(),
        }
    }

    /// Stores a text with its terminator in a new block of the text allocator
    /// and hands out its address. Only [`Arena::release_text`] may take it back.
    pub fn return_owned_text(&mut self, content: &str) -> (ptr: usize)
        requires
            old(self)@.has_room(),
            has_no_nul(content@),
        ensures
            ptr == old(self)@.frontier,
            ptr != NULL,
            final(self)@ == old(self)@.allocate(text_block(content@)),
            content_of(final(self)@.text(ptr)) == encode_utf8(content@),
    {
        proof {
            crate::text::lemma_encoding_is_nul_free(content@);
            crate::text::lemma_terminated_content(encode_utf8(content@));
        }
        self.allocate(Origin::TextAllocator, Payload::Text(encode_text(content)))
    }

    /// Takes back a text that [`Arena::return_owned_text`] handed out.
    pub fn release_text(&mut self, ptr: usize)
        requires
            old(self)@.holds_text(ptr),
            old(self)@.live[ptr].origin == Origin::TextAllocator,
        ensures
            final(self)@ == old(self)@.release(ptr),
            final(self)@.state(ptr) == Lifecycle::Destroyed,
    {
        let _ = self.release(ptr);
    }
}

/// The block in which the text allocator stores a text.
pub open spec fn text_block(content: Seq<char>) -> Allocation {
    Allocation {
        origin: Origin::TextAllocator,
        contents: Contents::Text(terminated(encode_utf8(content))),
    }
}

/// A text without a NUL character that is handed over is read back as it
/// was, byte for byte and character for character, and leaves no block behind
/// once it is released.
pub proof fn lemma_text_comes_back(memory: Memory, content: Seq<char>)
    requires
        memory.wf(),
        memory.has_room(),
        has_no_nul(content),
    ensures
        ({
            let ptr = memory.frontier as usize;
            let handed = memory.allocate(text_block(content));
            &&& handed.holds_text(ptr)
            &&& handed.live[ptr].origin == Origin::TextAllocator
            &&& content_of(handed.text(ptr)) == encode_utf8(content)
            &&& decode_utf8(content_of(handed.text(ptr))) == content
            &&& handed.release(ptr).live == memory.live
            &&& handed.release(ptr).state(ptr) == Lifecycle::Destroyed
        }),
{
    let ptr = memory.frontier as usize;
    let handed = memory.allocate(text_block(content));
    crate::text::lemma_encoding_is_nul_free(content);
    crate::text::lemma_terminated_content(encode_utf8(content));
    vstd::utf8::encode_utf8_decode_utf8(content);
    assert(!memory.live.contains_key(ptr));
    assert(handed.release(ptr).live =~= memory.live);
}

} // verus!
