//! The lock word of a mutex and what each operation makes of it.
//!
//! The word holds `LOCK_FREE` while nobody owns the mutex, else the id of the
//! owning thread. The mutex (see `crate::mutex`) keeps the word in an atomic
//! and reads it once per operation; the functions here take the word that was
//! read and decide the rest: whether the lock was taken, what the word becomes,
//! and which futex call (see `crate::futex`) follows.

use vstd::prelude::*;
use vstd::string::StringExecFns;
use crate::futex::{FutexCall, wait_call, wake_call, wait_spec, wake_spec};

verus! {

/// The value of the lock word while nobody owns the mutex.
pub const LOCK_FREE: usize = 0xa5a5a5a5;

/// The lock word that a thread with id `tid` writes when it takes the mutex.
pub open spec fn owner_word(tid: i32) -> usize {
    tid as usize
}

/// The lock word after a try to take the mutex by `tid`, from the word before.
pub open spec fn after_try_lock(word: usize, tid: i32) -> usize {
    if word == LOCK_FREE {
        owner_word(tid)
    } else {
        word
    }
}

/// The lock word after `tid` unlocks, from the word before: freed when `tid`
/// owns the mutex, else left alone (the unlock is refused).
pub open spec fn after_unlock(word: usize, tid: i32) -> usize {
    if word == owner_word(tid) {
        LOCK_FREE
    } else {
        word
    }
}

/// The lock word that a thread with id `tid` writes when it takes the mutex.
pub fn owner_word_of(tid: i32) -> (w: usize)
    ensures
        w == owner_word(tid),
{
    tid as usize
}

/// A try to take the mutex for thread `tid` that found the lock word
/// `observed`: the word it leaves, and whether the mutex was taken. Only a free
/// mutex is taken; the owner itself cannot take it a second time.
pub fn try_lock_outcome(observed: usize, tid: i32) -> (r: (usize, bool))
    ensures
        r.0 == after_try_lock(observed, tid),
        r.1 == (observed == LOCK_FREE),
{
    if observed == LOCK_FREE {
        (owner_word_of(tid), true)
    } else {
        (observed, false)
    }
}

/// One round of taking the mutex for thread `tid` that found the lock word
/// `observed`: the word it leaves, and `None` when the mutex was taken, else
/// the call that sleeps on the futex word (expecting 0) until the owner
/// unlocks, after which the caller tries again.
pub fn lock_outcome(observed: usize, tid: i32) -> (r: (usize, Option<FutexCall>))
    ensures
        r.0 == after_try_lock(observed, tid),
        r.1 is None <==> observed == LOCK_FREE,
        r.1 is Some ==> r.1->0 == wait_spec(0),
{
    let (word, acquired) = try_lock_outcome(observed, tid);
    if acquired {
        (word, None)
    } else {
        (word, Some(wait_call(0)))
    }
}

/// An unlock by thread `tid` that found the lock word `observed`: the word it
/// leaves, and the call that wakes one waiter; `None` (and the word left alone)
/// when `tid` does not own the mutex.
pub fn unlock_outcome(observed: usize, tid: i32) -> (r: (usize, Option<FutexCall>))
    ensures
        r.0 == after_unlock(observed, tid),
        r.1 is Some <==> observed == owner_word(tid),
        r.1 is Some ==> r.1->0 == wake_spec(1),
{
    if observed == owner_word_of(tid) {
        (LOCK_FREE, Some(wake_call(1)))
    } else {
        (observed, None)
    }
}

/// The owner's id that the lock word `word` holds, or `None` when it is free.
pub fn owner_of(word: usize) -> (o: Option<usize>)
    ensures
        o == (if word == LOCK_FREE { None } else { Some(word) }),
{
    if word == LOCK_FREE {
        None
    } else {
        Some(word)
    }
}

/// The character of a decimal digit.
pub open spec fn digit_char(d: nat) -> char {
    ((d + 48) as u32) as char
}

/// The decimal notation of `n`, most significant digit first.
pub open spec fn decimal(n: nat) -> Seq<char>
    decreases n,
{
    if n < 10 {
        seq![digit_char(n)]
    } else {
        decimal(n / 10).push(digit_char(n % 10))
    }
}

/// What a mutex with lock word `word` shows in debug output.
pub open spec fn describe_word(word: usize) -> Seq<char> {
    if word == LOCK_FREE {
        "Mutex { unlocked }"@
    } else {
        "Mutex { owned by "@ + decimal(word as nat) + " }"@
    }
}

/// The text of one decimal digit.
fn digit_text(d: usize) -> (s: &'static str)
    requires
        d < 10,
    ensures
        s@ == seq![digit_char(d as nat)],
{
    proof {
        reveal_strlit("0");
        reveal_strlit("1");
        reveal_strlit("2");
        reveal_strlit("3");
        reveal_strlit("4");
        reveal_strlit("5");
        reveal_strlit("6");
        reveal_strlit("7");
        reveal_strlit("8");
        reveal_strlit("9");
    }
    if d == 0 {
        "0"
    } else if d == 1 {
        "1"
    } else if d == 2 {
        "2"
    } else if d == 3 {
        "3"
    } else if d == 4 {
        "4"
    } else if d == 5 {
        "5"
    } else if d == 6 {
        "6"
    } else if d == 7 {
        "7"
    } else if d == 8 {
        "8"
    } else {
        "9"
    }
}

/// Appends the decimal notation of `n` to `s`.
pub fn push_decimal(s: &mut String, n: usize)
    ensures
        final(s)@ == old(s)@ + decimal(n as nat),
    decreases n,
{
    if n >= 10 {
        push_decimal(s, n / 10);
    }
    let d = digit_text(n % 10);
    s.append(d);
    proof {
        if n >= 10 {
            assert(decimal(n as nat) == decimal((n / 10) as nat).push(digit_char((n % 10) as nat)));
        }
    }
    assert(s@ =~= old(s)@ + decimal(n as nat));
}

/// The text by which a mutex with lock word `word` shows itself in debug
/// output: `Mutex { unlocked }`, or `Mutex { owned by <tid> }`.
pub fn describe_text(word: usize) -> (s: String)
    ensures
        s@ == describe_word(word),
{
    if word == LOCK_FREE {
        String::from_str("Mutex { unlocked }")
    } else {
        let mut s = String::from_str("Mutex { owned by ");
        push_decimal(&mut s, word);
        s.append(" }");
        s
    }
}

/// A thread that takes a free mutex is recorded as its owner, so it is the
/// one thread whose unlock the mutex accepts.
pub proof fn lemma_taker_owns(word: usize, tid: i32)
    requires
        word == LOCK_FREE,
    ensures
        after_try_lock(word, tid) == owner_word(tid),
{
}

/// A mutex that is held cannot be taken, not even by its owner, and trying
/// leaves the lock word as it was.
pub proof fn lemma_held_mutex_refuses(word: usize, tid: i32)
    requires
        word != LOCK_FREE,
    ensures
        after_try_lock(word, tid) == word,
{
}

/// No thread id is mistaken for the free mark: a mutex taken by a thread is
/// held. (With a 32-bit `usize` the one id `-0x5a5a5a5b` would write the free
/// mark itself; on 64 bits no id does.)
pub proof fn lemma_owner_is_not_free(tid: i32)
    requires
        tid != -0x5a5a5a5b,
    ensures
        owner_word(tid) != LOCK_FREE,
{
    assert((tid as usize) != 0xa5a5a5a5usize) by (bit_vector)
        requires
            tid != -0x5a5a5a5b,
    ;
}

/// Distinct threads write distinct lock words, so the word names its owner.
pub proof fn lemma_owner_word_names_owner(a: i32, b: i32)
    ensures
        owner_word(a) == owner_word(b) ==> a == b,
{
    assert((a as usize) == (b as usize) ==> a == b) by (bit_vector);
}

/// Mutual exclusion: once `t1` has taken a free mutex, a try by any thread
/// `t2` fails and `t1` stays the owner.
pub proof fn lemma_mutual_exclusion(t1: i32, t2: i32)
    requires
        t1 != -0x5a5a5a5b,
    ensures
        after_try_lock(LOCK_FREE, t1) != LOCK_FREE,
        after_try_lock(after_try_lock(LOCK_FREE, t1), t2) == owner_word(t1),
{
    lemma_owner_is_not_free(t1);
}

/// An operation on a mutex by a thread.
pub enum MutexOp {
    TryLock(i32),
    Lock(i32),
    Unlock(i32),
}

/// The thread that makes an operation.
pub open spec fn op_thread(op: MutexOp) -> i32 {
    match op {
        MutexOp::TryLock(t) => t,
        MutexOp::Lock(t) => t,
        MutexOp::Unlock(t) => t,
    }
}

/// The lock word after one operation (one round, for `Lock`).
pub open spec fn apply_op(word: usize, op: MutexOp) -> usize {
    match op {
        MutexOp::TryLock(t) => after_try_lock(word, t),
        MutexOp::Lock(t) => after_try_lock(word, t),
        MutexOp::Unlock(t) => after_unlock(word, t),
    }
}

/// The lock word of a new mutex after the operations `ops`, in order.
pub open spec fn word_after(ops: Seq<MutexOp>) -> usize
    decreases ops.len(),
{
    if ops.len() == 0 {
        LOCK_FREE
    } else {
        apply_op(word_after(ops.drop_last()), ops.last())
    }
}

/// Who holds a new mutex after the operations `ops`: the thread whose take
/// found it free, until that thread unlocks it.
pub open spec fn holder_after(ops: Seq<MutexOp>) -> Option<i32>
    decreases ops.len(),
{
    if ops.len() == 0 {
        None
    } else {
        let h = holder_after(ops.drop_last());
        match ops.last() {
            MutexOp::TryLock(t) => if h is None { Some(t) } else { h },
            MutexOp::Lock(t) => if h is None { Some(t) } else { h },
            MutexOp::Unlock(t) => if h == Some(t) { None } else { h },
        }
    }
}

/// The lock word that names a holder, or the free mark.
pub open spec fn word_of_holder(h: Option<i32>) -> usize {
    match h {
        None => LOCK_FREE,
        Some(t) => owner_word(t),
    }
}

/// Whatever operations a new mutex goes through, its lock word is free exactly
/// while nobody holds it, and otherwise names the one thread that holds it: the
/// one whose take found it free and who has not unlocked it since. An unlock by
/// another thread changes nothing. (Operations by the id `-0x5a5a5a5b` are left
/// out: on a 32-bit `usize` that id writes the free mark.)
pub proof fn lemma_word_tracks_holder(ops: Seq<MutexOp>)
    requires
        forall|i: int| 0 <= i < ops.len() ==> op_thread(#[trigger] ops[i]) != -0x5a5a5a5b,
    ensures
        word_after(ops) == word_of_holder(holder_after(ops)),
    decreases ops.len(),
{
    if ops.len() > 0 {
        let prev = ops.drop_last();
        assert forall|i: int| 0 <= i < prev.len() implies op_thread(#[trigger] prev[i])
            != -0x5a5a5a5b by {
            assert(prev[i] == ops[i]);
        }
        lemma_word_tracks_holder(prev);
        let op = ops.last();
        assert(op_thread(ops[ops.len() - 1]) != -0x5a5a5a5b);
        let t = op_thread(op);
        lemma_owner_is_not_free(t);
        match holder_after(prev) {
            Some(h) => {
                lemma_owner_word_names_owner(h, t);
                // `h` took the mutex in an earlier operation, so it is not the
                // excluded id
                lemma_holder_made_an_operation(prev);
                let i = choose|i: int|
                    0 <= i < prev.len() && op_thread(#[trigger] prev[i]) == h;
                assert(op_thread(prev[i]) != -0x5a5a5a5b);
                lemma_owner_is_not_free(h);
            },
            None => {},
        }
    }
}

/// A holder of a mutex is the thread of one of the operations it went through.
pub proof fn lemma_holder_made_an_operation(ops: Seq<MutexOp>)
    requires
        holder_after(ops) is Some,
    ensures
        exists|i: int| 0 <= i < ops.len() && op_thread(#[trigger] ops[i]) == holder_after(ops)->0,
    decreases ops.len(),
{
    let prev = ops.drop_last();
    let last = ops.len() - 1;
    if holder_after(prev) is Some && holder_after(ops) == holder_after(prev) {
        lemma_holder_made_an_operation(prev);
        let i = choose|i: int| 0 <= i < prev.len() && op_thread(#[trigger] prev[i]) == holder_after(prev)->0;
        assert(ops[i] == prev[i]);
    } else {
        assert(op_thread(ops[last]) == holder_after(ops)->0);
    }
}

} // verus!
