# ide_kernel

A verified microkernel for an AI-native command-line development environment.

- `src/` — the library, verified with Verus: the error model (`error`), the
  event bus and its durable log (`eventbus`), sessions and permissions
  (`session`), the capability registry with priority routing (`capability`),
  the command bus (`cmd_bus`), the kernel handle (`kernel`), settings
  defaults, the order in which setting sources are merged and the text of
  the command-line override layer (`config`), writing and checking
  `traceparent` headers of the form `00-{32 hex}-{16 hex}-{2 hex}`
  (`trace_context`), the IDE
  command-line decisions (`ide`), and a small JSON value model (`json`).
  `platform` and `concurrent` hold the trusted declarations for the clock,
  random identifiers and the `dashmap` tables.
- `tests/` — unit and scenario tests run against the compiled library.
- `app/` — the command-line program: argument parsing, reading and merging
  the setting sources with `figment`, logging setup, and the async runtime that runs providers
  and delivers events to subscribers.
