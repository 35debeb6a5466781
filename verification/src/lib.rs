//! A growable text buffer with a single owner, and walk-throughs of the
//! ownership rules that govern it.
//!
//! [`buffer::TextBuffer`] owns its backing storage outright: a value is
//! created from a literal, grown in place by appending, duplicated only on
//! request, and given back when its owner goes out of scope. Handing a buffer
//! to another binding or to a function moves it, and the type is not `Copy`,
//! so a binding that was moved from cannot be read, grown or released again.

pub mod buffer;
pub mod encoding;
pub mod ownership;

pub use crate::buffer::TextBuffer;
