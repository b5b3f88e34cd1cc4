# apexchainx_calculator

A deterministic SLA calculator (penalties and rewards by severity and repair
time) with its configuration, roles, pausing, statistics, telemetry and
calculation history, written in Verus.

- `src/` — the verified library.  Every operation is a transition of a
  plain environment value (`env::ContractEnv`: storage entries, emitted
  events, demanded authorizations, ledger clock) and is specified by a
  spec function over its view.  `src/laws.rs` and `src/codec.rs` hold the
  properties that span operations.
- `tests/` — tests run against the compiled library.
- `app/` — the Soroban contract around the library: it loads the instance
  storage into a `ContractEnv`, calls the library, enforces the demanded
  authorizations and, on success, stores the state and publishes the
  events.
