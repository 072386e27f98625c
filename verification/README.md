# async_rwlock_upgradable

An asynchronous reader-writer lock whose upgradable reader can be turned into a
writer atomically. Readers wait while a writer holds the lock or waits for it,
so writers are not starved.

Layout:

- `src/state.rs`: the one-word lock state (reader count, `WRITER_FLAG`,
  `UPGRADABLE_FLAG`), its model as spec functions, and the pure decisions taken
  on a word read from the atomic, each with an exact contract.
- `src/laws.rs`: proved properties of the word across operations: the
  well-formedness invariant kept by every step, exclusion of readers and writers,
  and which release undoes which acquisition.
- `src/word.rs`: the operations on the atomic word (`std`'s atomics behind
  trusted wrappers); each hands back a receipt naming the atomic, the operands,
  the value found and, for a compare-and-swap, whether it succeeded.
- `src/steps.rs`: what one attempt of each future does, stated over its receipts;
  `src/step_laws.rs`: the exclusion each successful attempt shows.
- `src/lock.rs`, `src/read.rs`, `src/upgradable_read.rs`, `src/upgrade.rs`,
  `src/write.rs`: the lock, its futures' poll decisions and its guards' release
  logic, running on `std`'s atomics.
- `app/lib.rs`: the asynchronous front end: `Future` impls, guards with
  `Deref`/`Drop`, and the waker slot, which need `Pin`, raw pointers and `unsafe`.
