# Fluxora streams

Continuous payment streaming, verified with Verus. A sender locks tokens once;
they accrue to a recipient over time, who draws them whenever they like.

- `src/` is the library: accrual, the contract's calls, events, rent, delegation
  checks, and the laws that hold of all of them together (`src/laws.rs`).
- `app/` is the Soroban contract around it: it loads ledger entries, lets the
  library decide, and performs the actions that the library logged.
- `tests/` runs the library on an in-memory ledger.

A call of the library works on an `Env`: the entries that the call may read, and
a log of what it asks of the ledger (authorizations, writes, rent, transfers,
events), in order. The contract of each call says when it is refused and with
which error, what it returns, and exactly what ledger and log it leaves.
