# spl_governance instruction builders

Verified builders for the instructions of the governance program.

- `src/pubkey.rs`: addresses, account entries and instructions; the calls into
  `solana_program` and `spl_token` (program derived addresses, well-known program ids).
- `src/codec.rs`: the byte format of instruction data field by field, with its laws.
- `src/address.rs`: the program derived addresses of the governance accounts.
- `src/state.rs`: governance configuration and stored instructions, with their format.
- `src/instruction.rs`: the instruction set, its encoding and decoding, and the
  round-trip laws.
- `src/builders.rs`: one builder per instruction, each stating its accounts and data.
- `app/lib.rs`: the same builders over `solana_program` types.
