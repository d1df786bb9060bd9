//! The decisions around futex(2): which arguments each operation hands to the
//! kernel, and how the kernel's answer turns into a `Result`.

use vstd::prelude::*;

verus! {

/// Possible error conditions that futex(2) can return.
#[derive(Debug, Clone, Copy, PartialEq, Eq, Structural)]
pub enum Errors {
    /// No read access to futex memory
    FutexRead,
    /// Futex value does not equal given expected value (e.g. in race condition)
    FutexValue,
    /// Wait was interrupted by a signal
    Signal,
    /// An argument was invalid
    InvalidArg,
    /// Too many open files
    TooManyFiles,
    /// The operation is not supported
    InvalidOp,
    /// Futex hit wait timeout
    WaitTimeout,
}

/// Linux errno: permission denied.
pub const EACCES: i32 = 13;

/// Linux errno: interrupted system call.
pub const EINTR: i32 = 4;

/// Linux errno: invalid argument.
pub const EINVAL: i32 = 22;

/// Linux errno: function not implemented.
pub const ENOSYS: i32 = 38;

/// Linux errno: try again (the futex word did not hold the expected value).
pub const EAGAIN: i32 = 11;

/// Linux errno: the timeout expired.
pub const ETIMEDOUT: i32 = 110;

/// futex(2) operation: sleep while the word holds the expected value.
pub const WAIT: i32 = 0;

/// futex(2) operation: wake waiters.
pub const WAKE: i32 = 1;

/// futex(2) operation: wake some waiters and move the rest to a second word.
pub const CMP_REQUEUE: i32 = 4;

/// The error that a negative answer of the kernel stands for, if it is one
/// that this library knows. The raw system call answers `-errno`.
pub open spec fn error_for(retval: int) -> Option<Errors> {
    if retval == -EACCES {
        Some(Errors::FutexRead)
    } else if retval == -EINTR {
        Some(Errors::Signal)
    } else if retval == -EINVAL {
        Some(Errors::InvalidArg)
    } else if retval == -ENOSYS {
        Some(Errors::InvalidOp)
    } else if retval == -EAGAIN {
        Some(Errors::FutexValue)
    } else if retval == -ETIMEDOUT {
        Some(Errors::WaitTimeout)
    } else {
        None
    }
}

/// The answers of the kernel that `get_result` accepts: a count, or one of the
/// known errors.
pub open spec fn is_known_answer(retval: int) -> bool {
    retval >= 0 || error_for(retval) is Some
}

/// What `get_result` makes of a known answer.
pub open spec fn result_of(retval: i32) -> Result<i32, Errors> {
    if retval >= 0 {
        Ok(retval)
    } else {
        Err(error_for(retval as int)->0)
    }
}

/// Turns the raw answer of futex(2) into a `Result`: a non-negative answer is
/// passed on as it is; `-errno` becomes the matching `Errors` variant.
pub fn get_result(retval: i32) -> (r: Result<i32, Errors>)
    requires
        is_known_answer(retval as int),
    ensures
        r == result_of(retval),
        r is Ok <==> retval >= 0,
        retval >= 0 ==> r == Ok::<i32, Errors>(retval),
        retval == -13 ==> r == Err::<i32, Errors>(Errors::FutexRead),
        retval == -4 ==> r == Err::<i32, Errors>(Errors::Signal),
        retval == -22 ==> r == Err::<i32, Errors>(Errors::InvalidArg),
        retval == -38 ==> r == Err::<i32, Errors>(Errors::InvalidOp),
        retval == -11 ==> r == Err::<i32, Errors>(Errors::FutexValue),
        retval == -110 ==> r == Err::<i32, Errors>(Errors::WaitTimeout),
{
    if retval >= 0 {
        return Ok(retval);
    }
    if retval == -EACCES {
        Err(Errors::FutexRead)
    } else if retval == -EINTR {
        Err(Errors::Signal)
    } else if retval == -EINVAL {
        Err(Errors::InvalidArg)
    } else if retval == -ENOSYS {
        Err(Errors::InvalidOp)
    } else if retval == -EAGAIN {
        Err(Errors::FutexValue)
    } else {
        Err(Errors::WaitTimeout)
    }
}

/// Tells whether `get_result` accepts an answer of the kernel; it accepts
/// exactly those for which this returns `true`.
pub fn is_known(retval: i32) -> (b: bool)
    ensures
        b == is_known_answer(retval as int),
        b == (retval >= 0 || retval == -13 || retval == -4 || retval == -22 || retval == -38
            || retval == -11 || retval == -110),
{
    retval >= 0 || retval == -EACCES || retval == -EINTR || retval == -EINVAL || retval
        == -ENOSYS || retval == -EAGAIN || retval == -ETIMEDOUT
}

/// No two known answers of the kernel lead to the same result: the caller can
/// always tell from the result what the kernel said.
pub proof fn lemma_result_tells_answer(a: i32, b: i32)
    requires
        is_known_answer(a as int),
        is_known_answer(b as int),
        result_of(a) == result_of(b),
    ensures
        a == b,
{
}

/// Every error that the kernel reports with a known errno comes back as its
/// own variant, and `TooManyFiles` is never one of them.
pub proof fn lemma_errors_are_distinct(retval: int)
    requires
        error_for(retval) is Some,
    ensures
        retval < 0,
        error_for(retval)->0 != Errors::TooManyFiles,
{
}

/// The fourth argument of futex(2). The kernel reads it as a pointer to a
/// timeout for waits, and as a plain count (`val2`) for requeues.
#[derive(Debug, Clone, Copy, PartialEq, Eq, Structural)]
pub enum FourthArg {
    /// A null pointer: no timeout.
    Null,
    /// A timeout of this many whole seconds.
    TimeoutSecs(i64),
    /// A count: for a requeue, how many of the other waiters are moved.
    Val2(u32),
}

/// The requeue limit that moves every waiter that is not woken.
pub const REQUEUE_ALL: u32 = 0x7fff_ffff;

/// The arguments of one futex(2) call besides the two futex words: the
/// operation, its value, the fourth argument, whether the second word takes
/// part, and the third value.
#[derive(Debug, Clone, Copy, PartialEq, Eq, Structural)]
pub struct FutexCall {
    pub op: i32,
    pub val: i32,
    pub fourth: FourthArg,
    pub uses_second_word: bool,
    pub val3: i32,
}

/// The call that `wait` makes: sleep while the word holds `val`, with no
/// timeout.
pub open spec fn wait_spec(val: i32) -> FutexCall {
    FutexCall { op: WAIT, val, fourth: FourthArg::Null, uses_second_word: false, val3: 0 }
}

/// The call that `time_wait` makes: as `wait`, for at most `wait_secs` seconds.
pub open spec fn time_wait_spec(val: i32, wait_secs: u32) -> FutexCall {
    FutexCall {
        op: WAIT,
        val,
        fourth: FourthArg::TimeoutSecs(wait_secs as i64),
        uses_second_word: false,
        val3: 0,
    }
}

/// The call that `wake` makes: wake at most `nprocs` waiters. The count goes to
/// the kernel as an `int`.
pub open spec fn wake_spec(nprocs: u32) -> FutexCall {
    FutexCall {
        op: WAKE,
        val: nprocs as i32,
        fourth: FourthArg::Null,
        uses_second_word: false,
        val3: 0,
    }
}

/// The call that `requeue` makes: wake `nprocs` waiters and move all the others
/// to the second word, provided the first word still holds `val`. The limit on
/// how many are moved is `REQUEUE_ALL`.
pub open spec fn requeue_spec(val: i32, nprocs: u32) -> FutexCall {
    FutexCall {
        op: CMP_REQUEUE,
        val: nprocs as i32,
        fourth: FourthArg::Val2(REQUEUE_ALL),
        uses_second_word: true,
        val3: val,
    }
}

/// Verifies that the futex still contains the value `val`, and then sleeps the
/// thread awaiting a wake: the arguments of that call.
pub fn wait_call(val: i32) -> (c: FutexCall)
    ensures
        c == wait_spec(val),
        c.op == 0,
        c.val == val,
        c.fourth == FourthArg::Null,
        !c.uses_second_word,
        c.val3 == 0,
{
    FutexCall { op: WAIT, val, fourth: FourthArg::Null, uses_second_word: false, val3: 0 }
}

/// Same as `wait_call`, except that the sleep lasts at most `wait_secs`
/// seconds; a timeout is answered with `-ETIMEDOUT`, which `get_result` turns
/// into `Err(Errors::WaitTimeout)`.
pub fn time_wait_call(val: i32, wait_secs: u32) -> (c: FutexCall)
    ensures
        c == time_wait_spec(val, wait_secs),
        c.op == 0,
        c.val == val,
        c.fourth == FourthArg::TimeoutSecs(wait_secs as i64),
        !c.uses_second_word,
        c.val3 == 0,
{
    FutexCall {
        op: WAIT,
        val,
        fourth: FourthArg::TimeoutSecs(wait_secs as i64),
        uses_second_word: false,
        val3: 0,
    }
}

/// Wakes at most `nprocs` processes waiting on the futex: the arguments of
/// that call.
pub fn wake_call(nprocs: u32) -> (c: FutexCall)
    ensures
        c == wake_spec(nprocs),
        c.op == 1,
        c.val == nprocs as i32,
        c.fourth == FourthArg::Null,
        !c.uses_second_word,
        c.val3 == 0,
{
    FutexCall {
        op: WAKE,
        val: nprocs as i32,
        fourth: FourthArg::Null,
        uses_second_word: false,
        val3: 0,
    }
}

/// Wakes up `nprocs` processes and requeues all other waiters on the second
/// futex, provided the first still holds `val`: the arguments of that call,
/// with `REQUEUE_ALL` as the limit on the waiters moved.
pub fn requeue_call(val: i32, nprocs: u32) -> (c: FutexCall)
    ensures
        c == requeue_spec(val, nprocs),
        c.op == 4,
        c.val == nprocs as i32,
        c.fourth == FourthArg::Val2(0x7fff_ffff),
        c.uses_second_word,
        c.val3 == val,
{
    FutexCall {
        op: CMP_REQUEUE,
        val: nprocs as i32,
        fourth: FourthArg::Val2(REQUEUE_ALL),
        uses_second_word: true,
        val3: val,
    }
}

/// A non-negative answer of the kernel (a count of woken or moved waiters, or
/// 0 for a wait that was woken) is passed on unchanged: the result is `Ok` of
/// exactly that number.
pub proof fn lemma_count_passes_through(retval: i32)
    requires
        retval >= 0,
    ensures
        is_known_answer(retval as int),
        result_of(retval) == Ok::<i32, Errors>(retval),
{
}

/// Each errno that futex(2) reports, negated as the system call answers it,
/// gives its own error, and no other negative answer is accepted.
pub proof fn lemma_errno_results(retval: i32)
    ensures
        retval == -13 ==> result_of(retval) == Err::<i32, Errors>(Errors::FutexRead),
        retval == -4 ==> result_of(retval) == Err::<i32, Errors>(Errors::Signal),
        retval == -22 ==> result_of(retval) == Err::<i32, Errors>(Errors::InvalidArg),
        retval == -38 ==> result_of(retval) == Err::<i32, Errors>(Errors::InvalidOp),
        retval == -11 ==> result_of(retval) == Err::<i32, Errors>(Errors::FutexValue),
        retval == -110 ==> result_of(retval) == Err::<i32, Errors>(Errors::WaitTimeout),
        retval < 0 ==> (is_known_answer(retval as int) <==> (retval == -13 || retval == -4
            || retval == -22 || retval == -38 || retval == -11 || retval == -110)),
{
}

/// The calls that the futex operations hand to the kernel: waits use
/// FUTEX_WAIT (0) with the expected value and, for a timed wait, the timeout;
/// a wake uses FUTEX_WAKE (1) with the count of waiters to wake; a requeue
/// uses FUTEX_CMP_REQUEUE (4) with the count to wake, the second word, the
/// expected value as the third value and a limit that moves all other waiters.
/// No call but the requeue involves the second word.
pub proof fn lemma_call_arguments(val: i32, wait_secs: u32, nprocs: u32)
    ensures
        wait_spec(val).op == 0 && wait_spec(val).val == val && wait_spec(val).fourth
            == FourthArg::Null && !wait_spec(val).uses_second_word && wait_spec(val).val3 == 0,
        time_wait_spec(val, wait_secs).op == 0 && time_wait_spec(val, wait_secs).val == val
            && time_wait_spec(val, wait_secs).fourth == FourthArg::TimeoutSecs(wait_secs as i64)
            && !time_wait_spec(val, wait_secs).uses_second_word && time_wait_spec(
            val,
            wait_secs,
        ).val3 == 0,
        wake_spec(nprocs).op == 1 && wake_spec(nprocs).val == nprocs as i32 && wake_spec(
            nprocs,
        ).fourth == FourthArg::Null && !wake_spec(nprocs).uses_second_word && wake_spec(
            nprocs,
        ).val3 == 0,
        requeue_spec(val, nprocs).op == 4 && requeue_spec(val, nprocs).val == nprocs as i32
            && requeue_spec(val, nprocs).fourth == FourthArg::Val2(0x7fff_ffff) && requeue_spec(
            val,
            nprocs,
        ).uses_second_word && requeue_spec(val, nprocs).val3 == val,
        wake_spec(nprocs).op != wait_spec(val).op,
{
}

} // verus!
