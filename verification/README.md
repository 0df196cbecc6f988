# aktor

The core of an actor runtime, verified with Verus.

- `src/` decides: how actors are named and spawned, how they are found by the
  texts of references to them, what becomes of messages, how an actor lives, fails,
  is restarted and ends, and what its parent hears of it. Contracts are stated over
  views; what holds across functions is stated as `law_*` proof functions, most of
  them in `src/lifecycle.rs`, `src/system.rs`, `src/resolver.rs`, `src/wire.rs` and
  `src/address.rs`.
- `app/` is the runtime around it on tokio: it waits, sleeps, calls into user code,
  and does as the library's `Action`s ask.
- `tests/` runs the library.

Calls into `tokio`, `dashmap` and `uuid` stand behind small functions whose contracts
are trusted: see `src/channel.rs`, `src/ask.rs`, `src/registry.rs`, `src/incarnation.rs`
and `src/wire.rs`. Values whose type is only known at run time are in `src/erased.rs`.
