# async_runtime

The scheduling core of a small multi-threaded async runtime, verified with Verus.

- `src/executor.rs` — the run queue: spawning and waking put tasks at the back,
  workers take them from the front (FIFO).
- `src/reactor.rs` — the reactor's token table: each registration with the OS
  event loop gets the least free token; readiness events wake exactly the
  wakers registered under their tokens, never for the reserved token.
- `src/net.rs` — the poll decisions of the TCP futures and the token slot that
  keeps a socket registered under one token.
- `src/time.rs` — timer deadlines on the runtime's nanosecond clock.
- `src/task.rs` — the task handle the queue holds.

`app/` runs the threads, locks, mio event loop, sockets and timer threads
around that core and offers the runtime's public API (`Runtime`, `spawn`,
`sleep`, `TcpListener`, `TcpStream`). `tests/` exercises the core.
