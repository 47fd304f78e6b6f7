# pseudo_mutex

Locks for tasks, verified with Verus, and a small chess board.

- `src/mutex.rs`: `Mutex`, its `FutureLock` and `LockGuard`, the schedule a task follows
  while it waits for a held mutex (`wait_step`), the error message, and the laws that tie
  taking, writing and releasing together.
- `src/pseudo_mutex.rs`: `PseudoMutex`, a mutex that pushes the wakers of waiting tasks to
  the front of its queue, and on release removes the front waker and wakes the next. Wakers are named by integers; both mutexes record the
  wakers they wake, and the runtime takes them with `take_woken`.
- `src/wakers.rs`: the waker table and waker stack the two mutexes keep their queues in.
- `src/clodotex.rs`: `ClodoTex`, a lock whose failed attempts wait in proportion to its queue.
- `src/async_timer.rs`: `AsyncTimeout`, a timer that is ready once its time has elapsed.
- `src/time_spec.rs`: the calls into `std::time` and what is stated of them.
- `src/board.rs`, `src/board/elements.rs`: the board, the players and the pawns' moves.
- `app/main.rs`: the program: futures, sleeping, printing and std trait impls.

Exclusive access to a lock is expressed by `&mut`: a guard borrows its mutex, and dropping the
guard releases it. The contract of each guard's `drop` states the release.
