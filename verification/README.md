# craft_nexus_contract

A verified, executable reference model of a marketplace escrow contract's
lifecycles, written in Verus. Every operation states in its contract exactly
what it does to the model and what it returns, error messages included.

Layout of `src/`:

- `time_policy`, `windows` — policy durations and inclusive-end time windows
  (deadlines saturate at `u64::MAX`).
- `escrow`, `dispute`, `recurring`, `stake`, `profile` — the single-object
  lifecycles and their transitions.
- `conservation`, `terminal` — running totals and terminal-state predicates.
- `state`, `ops` — the aggregate model state and the transition operators over it.
- `upgrade` — immutable upgrade commitments; a code hash is recorded once.
- `books`, `laws` — proved properties across operations: balanced totals,
  payout and withdrawal bounds, single-effect transitions, determinism,
  commitment persistence and uniqueness.
- `address`, `text`, `seqs`, `token` — strkey addresses, message text,
  first-match search, and the decimals rule of the test token.

`app/` holds the Soroban-facing pieces: the test token contract and the
conversion from ledger addresses to the model's strkey addresses.
