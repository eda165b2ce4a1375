//! The side of the boundary that speaks the C calling convention: memory
//! crosses as an address and a length, and every entry point takes the
//! [`crate::arena::Arena`] in which those addresses mean something.
pub mod array;
pub mod func;
pub mod gender;
pub mod unwind;
pub mod user;
