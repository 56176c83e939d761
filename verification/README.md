# escrow

A token escrow program for Solana, written with pinocchio. A maker locks an amount of one
token (`mint_a`) in a vault owned by a program-derived escrow account and names the amount of
another token (`mint_b`) it wants; a taker pays that amount and receives the vault; until then
the maker can refund.

Instructions (first byte of the instruction data):

- `0` make: followed by seed, receive and amount, each a little-endian `u64`;
- `1` take;
- `2` refund.

The escrow account holds 113 bytes: seed (0), maker (8), mint_a (40), mint_b (72),
receive (104) and bump (112). Errors are reported as custom codes 0 to 7 in the order of
`EscrowError`.

Layout:

- `src/` — the verified library: instruction decoding, the account checks, the escrow state
  and its byte layout, the plan of each instruction, and the `Session` that hands the
  runtime one action at a time (`lib.rs`, `instructions/`, `state.rs`, `session.rs`,
  `bytes.rs`, `errors.rs`); `outside.rs` holds the calls into the Solana crates whose
  contracts are trusted.
- `app/` — the entrypoint: it reads the accounts, runs the session and performs its actions
  (account and rent sysvar reads, cross-program invocations, data writes, lamport moves),
  reporting back to the session what was read or how each action went.
- `tests/` — tests of the library on concrete accounts.
