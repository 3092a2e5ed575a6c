# ahjoor

Verified core of the Ahjoor payment contracts, written in Verus.

- `src/errors.rs` and `src/errors/`: the global error-code namespace (one
  numeric range per contract), with proofs that codes are unique and lie in
  their contract's range.
- `src/whitelist.rs`: the token whitelist: admin hand-over, whitelisting,
  time-locked suspensions with a capped history, and per-token volume quotas
  over a sliding window of ledgers.
- `src/spending.rs`: pre-approved spending allowances with per-transaction,
  daily and total limits, consent records and an audit log.
- `src/rosca.rs`: the configuration of a rotating savings group.
- `src/assoc.rs`: association lists read as maps.

The library works on plain values: accounts and tokens are numbers
(`AccountId`), hashes are byte arrays, and the ledger sequence or time is an
argument. `app/` runs it on a Soroban host: it keeps the state in contract
storage, checks authorisation, reads the ledger, emits events, and turns
every refusal into the contract's panic.
