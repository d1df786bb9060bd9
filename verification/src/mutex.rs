//! A lock owned by thread id, shared between threads, with a futex word on
//! which contenders sleep.
//!
//! The lock word and the futex word are atomics, since the threads that share
//! a mutex reach it at the same time. Each operation reads or swaps the lock
//! word once and hands what it found to the decisions of `crate::lock_word`.
//! Sleeping and waking are system calls: the operations hand back the futex
//! call (see `crate::futex`) that the caller makes on the futex word.

use std::sync::atomic::{AtomicI32, AtomicUsize};

use vstd::prelude::*;
use crate::futex::{FutexCall, wait_spec, wake_spec};
use crate::lock_word::{
    LOCK_FREE, describe_text, describe_word, lock_outcome, owner_of, owner_word_of,
    try_lock_outcome, unlock_outcome,
};

verus! {

/// Calls std's `AtomicUsize::compare_exchange` with relaxed ordering: it stores
/// `new` in `atomic` if the value there is `current`, and answers with the value
/// it found there, as `Ok` when it was `current` (and so replaced) and as `Err`
/// otherwise. The claim is only that an `Ok` value equals `current` and an `Err`
/// value differs from it; what the atomic holds afterwards is left unsaid, since
/// Verus sees no value inside a std atomic.
#[verifier::external_body]
fn compare_exchange_word(atomic: &AtomicUsize, current: usize, new: usize) -> (r: Result<
    usize,
    usize,
>)
    ensures
        r is Ok ==> r->Ok_0 == current,
        r is Err ==> r->Err_0 != current,
{
    atomic.compare_exchange(
        current,
        new,
        std::sync::atomic::Ordering::Relaxed,
        std::sync::atomic::Ordering::Relaxed,
    )
}

/// The value that a compare-exchange found, whether it replaced it or not.
fn found(r: Result<usize, usize>) -> (v: usize)
    ensures
        v == (match r {
            Ok(v) => v,
            Err(v) => v,
        }),
{
    match r {
        Ok(v) => v,
        Err(v) => v,
    }
}

pub struct MutexInner {
    lock: AtomicUsize,
    futex: AtomicI32,
}

impl MutexInner {
    /// A free mutex whose futex word is 0.
    pub fn new() -> MutexInner {
        MutexInner { lock: AtomicUsize::new(LOCK_FREE), futex: AtomicI32::new(0) }
    }

    fn load_word(&self) -> usize {
        self.lock.load(std::sync::atomic::Ordering::Relaxed)
    }

    fn store_word(&self, word: usize) {
        self.lock.store(word, std::sync::atomic::Ordering::Relaxed)
    }

    /// Takes the mutex for thread `tid` if nobody owns it, in one atomic
    /// compare-exchange, and tells whether it did. The word it found decides,
    /// as `try_lock_outcome` says; the result is true exactly when that word
    /// was `LOCK_FREE`.
    pub fn try_lock(&self, tid: i32) -> (acquired: bool) {
        let r = compare_exchange_word(&self.lock, LOCK_FREE, owner_word_of(tid));
        let (_, acquired) = try_lock_outcome(found(r), tid);
        acquired
    }

    /// One round of taking the mutex for thread `tid`: `None` when it was
    /// taken, else the call that sleeps on the futex word until the owner
    /// unlocks, after which the caller tries again (see `lock_outcome`).
    pub fn lock(&self, tid: i32) -> (wait: Option<FutexCall>)
        ensures
            wait is Some ==> wait->0 == wait_spec(0),
    {
        let r = compare_exchange_word(&self.lock, LOCK_FREE, owner_word_of(tid));
        let (_, wait) = lock_outcome(found(r), tid);
        wait
    }

    /// Releases the mutex if thread `tid` owns it, and returns the call that
    /// wakes one thread waiting to lock it; `None`, with the mutex left alone,
    /// when `tid` does not own it (see `unlock_outcome`).
    pub fn unlock(&self, tid: i32) -> (wake: Option<FutexCall>)
        ensures
            wake is Some ==> wake->0 == wake_spec(1),
    {
        let observed = self.load_word();
        let (word, wake) = unlock_outcome(observed, tid);
        if wake.is_some() {
            // mark the lock as free
            self.store_word(word);
        }
        wake
    }

    /// The owner's id, or `None` while the mutex is free (see `owner_of`).
    pub fn owner(&self) -> (o: Option<usize>)
        ensures
            o is Some ==> o->0 != LOCK_FREE,
    {
        owner_of(self.load_word())
    }

    /// The futex word, for the system calls that sleep and wake on it.
    pub fn futex_word(&self) -> &AtomicI32 {
        &self.futex
    }
}

pub struct Mutex {
    inner: MutexInner,
}

impl Mutex {
    /// A free mutex whose futex word is 0.
    pub fn new() -> Mutex {
        Mutex { inner: MutexInner::new() }
    }

    /// Takes the mutex for thread `tid` if nobody owns it, and tells whether it
    /// did (see `MutexInner::try_lock`).
    pub fn try_lock(&self, tid: i32) -> (acquired: bool) {
        self.inner.try_lock(tid)
    }

    /// One round of taking the mutex for thread `tid` (see `MutexInner::lock`).
    pub fn lock(&self, tid: i32) -> (wait: Option<FutexCall>)
        ensures
            wait is Some ==> wait->0 == wait_spec(0),
    {
        self.inner.lock(tid)
    }

    /// Releases the mutex if thread `tid` owns it (see `MutexInner::unlock`).
    pub fn unlock(&self, tid: i32) -> (wake: Option<FutexCall>)
        ensures
            wake is Some ==> wake->0 == wake_spec(1),
    {
        self.inner.unlock(tid)
    }

    /// The owner's id, or `None` while the mutex is free.
    pub fn owner(&self) -> (o: Option<usize>)
        ensures
            o is Some ==> o->0 != LOCK_FREE,
    {
        self.inner.owner()
    }

    /// The futex word, for the system calls that sleep and wake on it.
    pub fn futex_word(&self) -> &AtomicI32 {
        self.inner.futex_word()
    }

    /// The text by which the mutex shows itself in debug output:
    /// `Mutex { unlocked }`, or `Mutex { owned by <tid> }`, for the lock word
    /// read (see `describe_text`).
    pub fn describe(&self) -> (s: String)
        ensures
            exists|word: usize| s@ == #[trigger] describe_word(word),
    {
        describe_text(self.inner.load_word())
    }
}

} // verus!
