# solana_programs

Verified account logic of four small on-chain programs, written with Verus.

- `src/keys.rs`: addresses as 32 raw bytes, equality and the null address.
- `src/accounts.rs`: the framework's checks that an account sits at the
  program-derived address of its seeds, with the address derivation behind
  two trusted wrappers.
- `src/instruction.rs`: instructions and account metas as plain values.
- `src/gated_vault.rs`: the gated vault's whitelist (a list of addresses in
  one account), adding and removing entries, and the resize and rent
  movement that each change asks for.
- `src/transfer_hook.rs`: the per-wallet whitelist flag of the transfer hook,
  its account constraints and errors, the hook's transfer decision and the
  seed rule of the extra account it needs.
- `src/schedule.rs`: building the task that removes a wallet from the
  whitelist, compiled for the task queue.
- `src/vrf.rs`: randomness requests to the oracle and the callbacks that
  store a roll in the user's state account.

`app/lib.rs` holds the account plumbing that cannot be verified: the
transfers, resizes and cross-program calls that the library's results ask
for, and the program errors with their on-chain derives. `tests/` runs the
library against the real outside crates.
