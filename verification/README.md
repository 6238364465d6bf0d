# escrow

A two-party Token-2022 escrow program, with its rules proved in Verus.

A sender opens a deal (`initialize`) for a receiver, a mint and an amount,
funds it (`deposit`), and then either pays it out (`release`) or calls it off
(`cancel`). Every deal id of a sender can be used once: a receipt account
outlives the deal and records how it ended.

## Layout

- `src/` — the verified library.
  - `address.rs`: 32-byte addresses and the ids of the programs involved.
  - `state.rs`: the deal's state and receipt.
  - `error.rs`: the program's errors and the account-checking errors.
  - `pda.rs`: seed lists and program-derived addresses.
  - `accounts.rs`: snapshots of accounts and ordered requirement lists.
  - `instructions.rs`: the accounts of each instruction and the requirements
    they must meet, in the order they are checked.
  - `token_cpi.rs`: the token transfers and the vault closure a deal asks for.
  - `escrow.rs`: the four instructions.
  - `laws.rs`: properties of the escrow as a whole.
- `tests/` — tests of the library on real program-derived addresses.
- `app/` — the on-chain entrypoint: it reads accounts, calls the library, and
  performs the account creations, token-program calls and writes it decides.
