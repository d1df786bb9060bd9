//! The stack that a new thread runs on: its size, and what an mmap(2) answer
//! for it means.

use vstd::prelude::*;

verus! {

/// 16k is enough for anybody.
pub const STACK_SIZE: u64 = 16384;

/// The address with which mmap(2) reports a failure (`MAP_FAILED`, all bits set).
pub const MAP_FAILED: usize = usize::MAX;

/// Whether an mmap(2) answer is a usable mapping: neither the failure mark nor
/// the null address.
pub fn mmap_succeeded(addr: usize) -> (ok: bool)
    ensures
        ok == (addr != MAP_FAILED && addr != 0),
{
    addr != MAP_FAILED && addr != 0
}

/// The address just past a stack of `STACK_SIZE` bytes that starts at `base`,
/// where a thread's stack pointer starts (the stack grows down); `None` where
/// that address does not fit in a `usize`.
pub fn stack_top(base: usize) -> (top: Option<usize>)
    ensures
        top == (if base + STACK_SIZE <= usize::MAX {
            Some((base + STACK_SIZE) as usize)
        } else {
            None::<usize>
        }),
{
    base.checked_add(STACK_SIZE as usize)
}

} // verus!
