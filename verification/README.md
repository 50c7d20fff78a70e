# background_service

Supervision of long-running background services on tokio.

* `src/` is the verified library: task ids (`IdCounter`), the three kinds of
  settings, the registry of the single-threaded manager (`ServiceMap`), the
  list bookkeeping of the list-based manager (dropping ended services,
  emptying the list), how waiting for a service becomes its shutdown result,
  and how a shutdown's results become `Ok` or `BackgroundServiceErrors`.
  The runtime objects it works with (cancellation tokens, the task tracker,
  task handles, the concurrent registry) are reached through the wrappers in
  `src/sync.rs`; durations through `src/time.rs`.
* `app/` spawns and awaits: the service traits, the `spawn*` methods, the
  async shutdown sequences, the blocked-thread monitor, and the error types
  with their messages.
* `tests/` exercises the library on concrete values.
