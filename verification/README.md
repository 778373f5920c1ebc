# freelance_escrow

A two-party escrow between a client and a freelancer, with a deadline, a grace
period, a review window for the client, and recovery paths for both sides.

- `src/` is the verified library. `state.rs` models the accounts (addresses,
  balances, the escrow's data), `errors.rs` the refusals, `pda.rs` the escrow's
  derived address, `instructions/` one file per instruction (what it decides, as
  a spec function, and the function that does it), and `laws.rs` the properties
  that span instructions: the status flow, settled escrows being final, fixed
  terms, who may act, conservation of lamports, and the two recovery paths.
- `app/` is the on-chain program: it reads the accounts and the clock, hands
  plain values to the library, writes the accounts back and makes the transfer
  that funding asks for.
- `tests/` runs the program's scenarios and the contracts on concrete values.
