//! A 128-bit unique identifier, stored on documents as a packed array of
//! four four-byte integers, most significant first.

use vstd::prelude::*;

verus! {

/// A unique identifier as its four four-byte parts.
#[derive(Debug, Clone, Copy, PartialEq, Eq, Structural)]
pub struct Uuid(pub i32, pub i32, pub i32, pub i32);

} // verus!
