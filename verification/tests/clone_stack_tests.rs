use rawthread::clone::{
    CHILD_CLEARTID, CHILD_SETTID, COMMON, DETACHED, FILES, FS, NEWNS, PARENT, PARENT_SETTID,
    PTRACE, SETTLS, SIGHAND, STOPPED, SYSVSEM, THREAD, UNTRACED, VFORK, VM,
};
use rawthread::stack::{mmap_succeeded, stack_top, MAP_FAILED, STACK_SIZE};

#[test]
fn clone_flags_match_libc() {
    assert_eq!(VM, libc::CLONE_VM);
    assert_eq!(FS, libc::CLONE_FS);
    assert_eq!(FILES, libc::CLONE_FILES);
    assert_eq!(SIGHAND, libc::CLONE_SIGHAND);
    assert_eq!(PTRACE, libc::CLONE_PTRACE);
    assert_eq!(VFORK, libc::CLONE_VFORK);
    assert_eq!(PARENT, libc::CLONE_PARENT);
    assert_eq!(THREAD, libc::CLONE_THREAD);
    assert_eq!(NEWNS, libc::CLONE_NEWNS);
    assert_eq!(SYSVSEM, libc::CLONE_SYSVSEM);
    assert_eq!(SETTLS, libc::CLONE_SETTLS);
    assert_eq!(PARENT_SETTID, libc::CLONE_PARENT_SETTID);
    assert_eq!(CHILD_CLEARTID, libc::CLONE_CHILD_CLEARTID);
    assert_eq!(DETACHED, libc::CLONE_DETACHED);
    assert_eq!(UNTRACED, libc::CLONE_UNTRACED);
    assert_eq!(CHILD_SETTID, libc::CLONE_CHILD_SETTID);
    assert_eq!(STOPPED, 0x02000000);
}

#[test]
fn common_flags() {
    assert_eq!(COMMON, 0x00350f00);
    for flag in [VM, FS, FILES, SIGHAND, THREAD, SYSVSEM, PARENT_SETTID, CHILD_CLEARTID] {
        assert_eq!(COMMON & flag, flag);
    }
    for flag in [SETTLS, PARENT, DETACHED, CHILD_SETTID, PTRACE, VFORK, NEWNS, UNTRACED, STOPPED] {
        assert_eq!(COMMON & flag, 0);
    }
}

#[test]
fn stack_size() {
    assert_eq!(STACK_SIZE, 16384);
}

#[test]
fn mmap_answers() {
    assert_eq!(MAP_FAILED, libc::MAP_FAILED as usize);
    assert!(!mmap_succeeded(MAP_FAILED));
    assert!(!mmap_succeeded(0));
    assert!(mmap_succeeded(0x7f00_0000_0000));
}

#[test]
fn stack_tops() {
    assert_eq!(stack_top(0x7f00_0000_0000), Some(0x7f00_0000_4000));
    assert_eq!(stack_top(usize::MAX - 16384), Some(usize::MAX));
    assert_eq!(stack_top(usize::MAX - 16383), None);
    assert_eq!(stack_top(usize::MAX), None);
}
