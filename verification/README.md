# rawthread

Threads for 64-bit Linux made directly with clone(2), and a mutex that sleeps
on a futex.

- `src/` is the verified library (Verus): the futex argument and answer
  handling (`futex`), the lock word's decisions and laws (`lock_word`), the
  mutex on atomic words (`mutex`), the clone(2) flags
  (`clone`) and the stack geometry (`stack`).
- `app/` is the unverified part that touches the machine: the system calls,
  raw memory, thread-local storage and thread start-up. It asks the library
  what to do and makes the calls it hands back.
- `tests/` exercises the library.
