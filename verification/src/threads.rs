use vstd::prelude::*;

verus! {

/// Offset of the stack limit inside the per-thread data block.
pub const STACK_LIMIT_OFFSET: i32 = 16;

/// Offset of the safepoint-request byte inside the per-thread data block.
pub const SAFEPOINT_REQUESTED_OFFSET: i32 = 32;

} // verus!
