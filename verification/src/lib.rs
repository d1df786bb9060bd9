//! Threads for 64-bit Linux made with clone(2), and a mutex that sleeps on a
//! futex: the decisions of both, verified.


pub mod clone;
pub mod futex;
pub mod lock_word;
pub mod mutex;
pub mod stack;
