# async_soft_clock

A software clock that ticks at a fixed period, tells every registered
listener of each tick over a tokio channel, and stops when a unit message
arrives on its stop channel.

- `src/` is the verified library (Verus): errors and their texts, durations,
  listeners, the clock's state (period, whether a run is under way, its
  listeners) and the decisions of its run loop, with the laws they obey.
  The tokio channel ends are declared as opaque types; making a channel and
  polling the stop channel go through two small trusted wrappers in
  `src/channel.rs`.
- `app/` is the asynchronous side, in plain Rust: the run loop that waits on
  the tokio interval and sends ticks as the library decides, constructors
  that turn a frequency in Hz into a period, the executor over a
  current-thread tokio runtime, and displayable copies of the error types.
- `tests/` exercises the library.
