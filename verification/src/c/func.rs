//! Plain functions, owned text, and a callback into the caller.
use crate::aggregate::fits_i32;
use crate::arena::{text_block, Arena, Lifecycle, Origin, NULL};
use crate::text::{content_of, decimal, has_no_nul, render_decimal};
use vstd::prelude::*;
use vstd::string::*;
use vstd::utf8::encode_utf8;

verus! {

/// The line that reports what a callback returned.
pub open spec fn callback_line(n: int) -> Seq<char> {
    "result is: "@ + decimal(n)
}

/// The sum of two numbers.
pub fn c_add(a: i32, b: i32) -> (sum: i32)
    requires
        fits_i32(a + b),
    ensures
        sum == a + b,
{
    a + b
}

/// Hands over the greeting as a terminated text. Release it with [`c_free_str`].
pub fn c_hello_str(arena: &mut Arena) -> (text: usize)
    requires
        old(arena)@.has_room(),
    ensures
        text == old(arena)@.frontier,
        text != NULL,
        final(arena)@ == old(arena)@.allocate(text_block("Hello Rust FFI"@)),
        content_of(final(arena)@.text(text)) == encode_utf8("Hello Rust FFI"@),
{
    proof {
        reveal_strlit("Hello Rust FFI");
    }
    arena.return_owned_text("Hello Rust FFI")
}

/// Takes back a text that the core handed over.
pub fn c_free_str(arena: &mut Arena, ptr: usize)
    requires
        old(arena)@.holds_text(ptr),
        old(arena)@.live[ptr].origin == Origin::TextAllocator,
    ensures
        final(arena)@ == old(arena)@.release(ptr),
        final(arena)@.state(ptr) == Lifecycle::Destroyed,
{
    arena.release_text(ptr);
}

/// The line that reports `n` as the result of a callback.
pub fn callback_text(n: i32) -> (line: String)
    ensures
        line@ == callback_line(n as int),
        has_no_nul(line@),
{
    proof {
        reveal_strlit("result is: ");
        crate::text::lemma_decimal_has_no_nul(n as int);
    }
    String::from_str("result is: ").concat(render_decimal(n).as_str())
}

/// Calls `cal` once, with `a` and `b`, and hands over the line that reports
/// what it returned. Release the line with [`c_free_str`].
pub fn c_callback<F: Fn(i32, i32) -> i32>(arena: &mut Arena, cal: F, a: i32, b: i32) -> (text: usize)
    requires
        old(arena)@.has_room(),
        call_requires(cal, (a, b)),
    ensures
        text == old(arena)@.frontier,
        text != NULL,
        exists|n: i32| #[trigger]
            call_ensures(cal, (a, b), n) && final(arena)@ == old(arena)@.allocate(
                text_block(callback_line(n as int)),
            ),
{
    let n = cal(a, b);
    let line = callback_text(n);
    arena.return_owned_text(line.as_str())
}

} // verus!
