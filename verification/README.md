# grant_contracts

Verified core of a family of grant-funding contracts: streaming grants,
quadratic and multi-token matching, staking weights, appeals, governance,
sub-DAO permissions, liquidity hooks, oracles and related safety mechanisms.

- `src/` holds the logic, written in Verus. Each contract is a state struct
  with a well-formedness predicate; its operations take the ledger time and
  balances as arguments and state in their contracts what they return and
  how the state changes. Laws that relate several operations are public
  proof functions (`lemma_*`).
- Contract state is held as plain values (`Vec`, `HashMap` keyed by integer
  identities, `Option`). Soroban's `Map` and `Vec` are handles to host
  objects that live in the environment's storage; reading and writing that
  storage is the I/O edge, left to the caller.
- `src/host.rs` holds the only calls into the Soroban host (SHA-256), each
  behind a trusted specification.
- `tests/` runs the library on concrete values.
- `app/` is the thin Soroban-facing layer: address mapping, ledger reads,
  token transfers, and the floating-point metrics.
