use rawthread::futex::{wait_call, wake_call};
use rawthread::lock_word::{
    describe_text, lock_outcome, owner_of, owner_word_of, push_decimal, try_lock_outcome,
    unlock_outcome, LOCK_FREE,
};

#[test]
fn owner_words() {
    assert_eq!(owner_word_of(42), 42);
    assert_eq!(owner_word_of(0), 0);
    assert_eq!(owner_word_of(-1), usize::MAX);
    assert_ne!(owner_word_of(i32::MIN), LOCK_FREE);
    assert_ne!(owner_word_of(-0x5a5a5a5b), LOCK_FREE);
}

#[test]
fn try_lock_outcomes() {
    assert_eq!(try_lock_outcome(LOCK_FREE, 7), (7, true));
    assert_eq!(try_lock_outcome(7, 8), (7, false));
    assert_eq!(try_lock_outcome(7, 7), (7, false));
}

#[test]
fn lock_outcomes() {
    assert_eq!(lock_outcome(LOCK_FREE, 3), (3, None));
    assert_eq!(lock_outcome(3, 4), (3, Some(wait_call(0))));
}

#[test]
fn unlock_outcomes() {
    assert_eq!(unlock_outcome(5, 5), (LOCK_FREE, Some(wake_call(1))));
    assert_eq!(unlock_outcome(5, 6), (5, None));
    assert_eq!(unlock_outcome(LOCK_FREE, 6), (LOCK_FREE, None));
}

#[test]
fn owners() {
    assert_eq!(owner_of(LOCK_FREE), None);
    assert_eq!(owner_of(12), Some(12));
}

#[test]
fn mutual_exclusion_on_words() {
    let (w, took) = try_lock_outcome(LOCK_FREE, 1);
    assert!(took);
    let (w2, took2) = try_lock_outcome(w, 2);
    assert!(!took2);
    assert_eq!(w2, 1);
}

#[test]
fn word_follows_holder_through_a_sequence() {
    let mut w = LOCK_FREE;
    w = try_lock_outcome(w, 1).0; // 1 holds
    assert_eq!(w, 1);
    w = unlock_outcome(w, 2).0; // refused
    assert_eq!(w, 1);
    w = lock_outcome(w, 3).0; // must wait
    assert_eq!(w, 1);
    w = unlock_outcome(w, 1).0; // free
    assert_eq!(w, LOCK_FREE);
    w = lock_outcome(w, 3).0; // 3 holds
    assert_eq!(w, 3);
}

#[test]
fn decimal_text() {
    for n in [0usize, 7, 10, 99, 100, 12345, usize::MAX] {
        let mut s = String::from("x");
        push_decimal(&mut s, n);
        assert_eq!(s, format!("x{}", n));
    }
}

#[test]
fn describe_texts() {
    assert_eq!(describe_text(LOCK_FREE), "Mutex { unlocked }");
    assert_eq!(describe_text(9), "Mutex { owned by 9 }");
    assert_eq!(describe_text(usize::MAX), "Mutex { owned by 18446744073709551615 }");
}
