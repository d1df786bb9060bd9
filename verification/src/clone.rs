//! The flags of clone(2), and the set of them with which a thread is made.

use vstd::prelude::*;

verus! {

/// Set if VM shared between processes.
pub const VM: i32 = 0x00000100;

/// Set if fs info shared between processes.
pub const FS: i32 = 0x00000200;

/// Set if open files shared between processes.
pub const FILES: i32 = 0x00000400;

/// Set if signal handlers shared.
pub const SIGHAND: i32 = 0x00000800;

/// Set if tracing continues on the child.
pub const PTRACE: i32 = 0x00002000;

/// Set if the parent wants the child to wake it up on mm_release.
pub const VFORK: i32 = 0x00004000;

/// Set if we want to have the same parent as the cloner.
pub const PARENT: i32 = 0x00008000;

/// Set to add to same thread group.
pub const THREAD: i32 = 0x00010000;

/// Set to create new namespace.
pub const NEWNS: i32 = 0x00020000;

/// Set to shared SVID SEM_UNDO semantics.
pub const SYSVSEM: i32 = 0x00040000;

/// Set TLS info.
pub const SETTLS: i32 = 0x00080000;

/// Store TID in userlevel buffer before MM copy.
pub const PARENT_SETTID: i32 = 0x00100000;

/// Register exit futex and memory location to clear.
pub const CHILD_CLEARTID: i32 = 0x00200000;

/// Create clone detached.
pub const DETACHED: i32 = 0x00400000;

/// Set if the tracing process can't force PTRACE on this clone.
pub const UNTRACED: i32 = 0x00800000;

/// Store TID in userlevel buffer in the child.
pub const CHILD_SETTID: i32 = 0x01000000;

/// Start in stopped state.
pub const STOPPED: i32 = 0x02000000;

/// This is how clone(2) is called for threading purposes: the new thread
/// shares memory, filesystem information, open files, signal handlers, the
/// thread group and SysV semaphore undo state; its id is stored in the
/// parent's buffer and cleared (with a futex wake) when it exits.
pub const COMMON: i32 = VM | FS | FILES | SIGHAND | THREAD | PARENT_SETTID | CHILD_CLEARTID
    | SYSVSEM;

/// Whether every bit of `flag` is set in `flags`.
pub open spec fn has_flag(flags: i32, flag: i32) -> bool {
    flags & flag == flag
}

/// The flags with which a thread is made hold exactly the sharing flags named
/// in `COMMON`'s documentation, and none of the others: no TLS setup, no
/// separate parent, no detaching, no child-side id store, no tracing, no vfork
/// wait, no new namespace, no stopped start.
pub proof fn lemma_common_flags()
    ensures
        has_flag(COMMON, VM),
        has_flag(COMMON, FS),
        has_flag(COMMON, FILES),
        has_flag(COMMON, SIGHAND),
        has_flag(COMMON, THREAD),
        has_flag(COMMON, SYSVSEM),
        has_flag(COMMON, PARENT_SETTID),
        has_flag(COMMON, CHILD_CLEARTID),
        !has_flag(COMMON, SETTLS),
        !has_flag(COMMON, PARENT),
        !has_flag(COMMON, DETACHED),
        !has_flag(COMMON, CHILD_SETTID),
        !has_flag(COMMON, PTRACE),
        !has_flag(COMMON, VFORK),
        !has_flag(COMMON, NEWNS),
        !has_flag(COMMON, UNTRACED),
        !has_flag(COMMON, STOPPED),
        COMMON == 0x00350f00,
{
    assert(0x00000100i32 | 0x00000200i32 | 0x00000400i32 | 0x00000800i32 | 0x00010000i32
        | 0x00100000i32 | 0x00200000i32 | 0x00040000i32 == 0x00350f00i32) by (bit_vector);
    assert({
        let c = 0x00350f00i32;
        &&& c & 0x00000100i32 == 0x00000100i32
        &&& c & 0x00000200i32 == 0x00000200i32
        &&& c & 0x00000400i32 == 0x00000400i32
        &&& c & 0x00000800i32 == 0x00000800i32
        &&& c & 0x00010000i32 == 0x00010000i32
        &&& c & 0x00040000i32 == 0x00040000i32
        &&& c & 0x00100000i32 == 0x00100000i32
        &&& c & 0x00200000i32 == 0x00200000i32
        &&& c & 0x00080000i32 == 0
        &&& c & 0x00008000i32 == 0
        &&& c & 0x00400000i32 == 0
        &&& c & 0x01000000i32 == 0
        &&& c & 0x00002000i32 == 0
        &&& c & 0x00004000i32 == 0
        &&& c & 0x00020000i32 == 0
        &&& c & 0x00800000i32 == 0
        &&& c & 0x02000000i32 == 0
    }) by (bit_vector);
}

} // verus!
