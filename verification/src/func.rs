//! The greeting, handed over as a terminated text and taken back.
use crate::arena::{text_block, Arena, Lifecycle, Origin, NULL};
use crate::text::content_of;
use vstd::prelude::*;
use vstd::string::*;
use vstd::utf8::encode_utf8;

verus! {

/// Hands over the greeting as a terminated text. Release it with [`free_str`].
pub fn hello_str(arena: &mut Arena) -> (text: usize)
    requires
        old(arena)@.has_room(),
    ensures
        text == old(arena)@.frontier,
        text != NULL,
        final(arena)@ == old(arena)@.allocate(text_block("Hello Rust FFI"@)),
        content_of(final(arena)@.text(text)) == encode_utf8("Hello Rust FFI"@),
{
    proof {
        reveal_strlit("Hello Rust FFI");
    }
    arena.return_owned_text("Hello Rust FFI")
}

/// Takes back a text that [`hello_str`] handed over.
pub fn free_str(arena: &mut Arena, ptr: usize)
    requires
        old(arena)@.holds_text(ptr),
        old(arena)@.live[ptr].origin == Origin::TextAllocator,
    ensures
        final(arena)@ == old(arena)@.release(ptr),
        final(arena)@.state(ptr) == Lifecycle::Destroyed,
{
    arena.release_text(ptr);
}

} // verus!
