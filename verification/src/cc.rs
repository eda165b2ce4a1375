//! The side of the boundary that speaks to a caller with its own smart
//! pointers: values cross as owned boxes, borrowed slices and strings.
pub mod array;
pub mod func;
pub mod gender;
pub mod user;
