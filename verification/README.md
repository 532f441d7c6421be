# yield_vault

Yield donations of a vault contract, verified with Verus. A user routes a share
of their yield, in basis points, to an approved charity each time the yield is
paid out.

- `src/donations.rs`: the functions of the contract, and what each of them does
  to the ledger as spec functions on `LedgerView`.
- `src/ledger.rs`, `src/entries.rs`: the ledger as a call sees it. It holds the
  storage entries as plain values and collects what the call asks of the host:
  authorisations, token transfers and events.
- `src/address.rs`, `src/error.rs`: addresses and errors.
- `src/laws.rs`: what holds of the functions together, up to every ledger that a
  series of calls can lead to.
- `app/`: the glue to a Soroban host. It loads the entries of a call, carries
  out the actions and stores what has changed. That a call may be run on its own
  entries alone is proved in `src/laws.rs`.
