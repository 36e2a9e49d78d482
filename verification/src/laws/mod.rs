//! Laws of the operations: what each does, told by what goes into it and what comes out.
//!
//! Each law speaks of a call of an operation, by its arguments, its result and what became of the
//! value that it was called on.

pub mod client;
pub mod connection;
pub mod transport;
pub mod value;
