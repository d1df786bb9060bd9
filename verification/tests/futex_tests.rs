use rawthread::futex::{
    get_result, is_known, requeue_call, time_wait_call, wait_call, wake_call, Errors, FourthArg, FutexCall,
    CMP_REQUEUE, EACCES, EAGAIN, EINTR, EINVAL, ENOSYS, ETIMEDOUT, WAIT, WAKE,
};

#[test]
fn errno_values_match_libc() {
    assert_eq!(EACCES, libc::EACCES);
    assert_eq!(EAGAIN, libc::EAGAIN);
    assert_eq!(EINTR, libc::EINTR);
    assert_eq!(EINVAL, libc::EINVAL);
    assert_eq!(ENOSYS, libc::ENOSYS);
    assert_eq!(ETIMEDOUT, libc::ETIMEDOUT);
}

#[test]
fn futex_ops_match_libc() {
    assert_eq!(WAIT, libc::FUTEX_WAIT);
    assert_eq!(WAKE, libc::FUTEX_WAKE);
    assert_eq!(CMP_REQUEUE, libc::FUTEX_CMP_REQUEUE);
}

#[test]
fn non_negative_answers_pass_through() {
    assert_eq!(get_result(0), Ok(0));
    assert_eq!(get_result(1), Ok(1));
    assert_eq!(get_result(57), Ok(57));
    assert_eq!(get_result(i32::MAX), Ok(i32::MAX));
}

#[test]
fn each_errno_gives_its_error() {
    assert_eq!(get_result(-13), Err(Errors::FutexRead));
    assert_eq!(get_result(-4), Err(Errors::Signal));
    assert_eq!(get_result(-22), Err(Errors::InvalidArg));
    assert_eq!(get_result(-38), Err(Errors::InvalidOp));
    assert_eq!(get_result(-11), Err(Errors::FutexValue));
}

#[test]
fn timed_out_wait_gives_wait_timeout() {
    assert_eq!(get_result(-libc::ETIMEDOUT), Err(Errors::WaitTimeout));
}

#[test]
fn known_answers() {
    assert!(is_known(0));
    assert!(is_known(5));
    assert!(is_known(-13));
    assert!(is_known(-4));
    assert!(is_known(-22));
    assert!(is_known(-38));
    assert!(is_known(-11));
    assert!(is_known(-110));
    assert!(!is_known(-1));
    assert!(!is_known(-23));
    assert!(is_known(13));
    assert!(!is_known(i32::MIN));
}

#[test]
fn distinct_answers_give_distinct_results() {
    let answers = [0, 3, -13, -4, -22, -38, -11, -110];
    for a in answers.iter() {
        for b in answers.iter() {
            if a != b {
                assert_ne!(get_result(*a), get_result(*b));
            }
        }
    }
}

#[test]
fn wait_arguments() {
    assert_eq!(
        wait_call(7),
        FutexCall { op: 0, val: 7, fourth: FourthArg::Null, uses_second_word: false, val3: 0 }
    );
}

#[test]
fn time_wait_arguments() {
    assert_eq!(
        time_wait_call(-2, 30),
        FutexCall { op: 0, val: -2, fourth: FourthArg::TimeoutSecs(30), uses_second_word: false, val3: 0 }
    );
    assert_eq!(time_wait_call(0, u32::MAX).fourth, FourthArg::TimeoutSecs(4294967295));
}

#[test]
fn wake_arguments() {
    assert_eq!(
        wake_call(3),
        FutexCall { op: 1, val: 3, fourth: FourthArg::Null, uses_second_word: false, val3: 0 }
    );
    assert_eq!(wake_call(u32::MAX).val, -1);
}

#[test]
fn requeue_arguments() {
    assert_eq!(
        requeue_call(9, 1),
        FutexCall {
            op: 4,
            val: 1,
            fourth: FourthArg::Val2(0x7fff_ffff),
            uses_second_word: true,
            val3: 9,
        }
    );
    // every waiter that is not woken is moved
    assert_eq!(requeue_call(0, u32::MAX).fourth, FourthArg::Val2(i32::MAX as u32));
}
