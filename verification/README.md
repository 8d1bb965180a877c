# grainlify_core

Upgrade, migration, governance and monitoring logic of the Grainlify core
Soroban contract, written as verified state machines.

- `src/governance.rs` — proposals, ballots, finalisation by quorum and
  approval threshold, execution after a delay; the abstract
  `GovernanceState` and its transitions.
- `src/monitoring.rs` — operation, error, governance and performance
  counters and the metric events.
- `src/lib.rs` — the whole contract storage (`GrainlifyContract`): admin,
  version bookkeeping, the single-admin upgrade timelock, migrations, and the
  event log each entry point appends to; `ContractState` is its abstract
  model.
- `src/laws.rs` — properties spanning several operations (one ballot per
  voter, approval implies majority, the upgrade timelock, idempotent
  migration, immutable admin, observational counters, ...).
- `app/` — the Soroban contract shell: storage, ledger time, token balances,
  authorisation, event publication and the WASM swap.

Every entry point takes the ledger time as `now`; token balances are passed
in by the caller after the library names the token it needs.
