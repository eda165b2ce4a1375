//! An ownership-transfer layer between a memory-managed core and a caller
//! that manages memory by hand.
//!
//! Every buffer, text and record that crosses the C boundary lives in an
//! [`arena::Arena`], a table keyed by address. A function that borrows takes
//! an address and a length; a function that hands memory over returns a fresh
//! address, and names the one function that may take it back. On the bridge
//! to a caller with smart pointers of its own, values cross as boxes, slices
//! and strings, and the types keep the books.
pub mod aggregate;
pub mod arena;
pub mod c;
pub mod cc;
pub mod func;
pub mod text;
