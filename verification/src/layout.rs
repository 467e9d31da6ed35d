//! Layout of a queue's shared memory.
use vstd::prelude::*;

verus! {

/// Byte offset of the ring buffer in a queue's mapping: the queue header (head offset, tail
/// offset, read-lock timestamp and a reserved word, eight bytes each) comes first.
pub const BUFFER_BYTE_OFFSET: usize = 32;

} // verus!
