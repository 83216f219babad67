# lez_sdk

A minimal SDK for writing LEZ programs, verified with Verus.

- `src/account.rs` — account records, post-states and chained calls.
- `src/error.rs` — `SdkError`, its numeric codes and display messages.
- `src/output.rs` — `SdkOutput`, the result of an instruction handler.
- `src/router.rs` — `InstructionRouter`: explicit discriminant-based dispatch.
- `src/cpi.rs` — `CpiCall`: explicit construction of cross-program calls.
  `CpiCall::build` takes the instruction already serialized into `u32`
  words: the zkVM serializer (`risc0_zkvm::serde`) and `nssa_core` are not
  available to this crate, so callers serialize the instruction themselves.
- `src/codec.rs` — Borsh encoding of `u64` values, through the `borsh` crate.
- `src/state.rs` — a `u64` stored in account data, read and written back.
  Empty data holds 0; updates saturate; data that holds no value is handed
  back unchanged, so instructions on a present account never fail.
- `src/counter.rs` — the counter program: handlers and its router.
- `src/vault.rs` — the vault program: deposit, withdraw and its router.
- `src/token_gate.rs` — the token gate: authorization check, then a call
  to the vault; it takes the serialized deposit instruction.
- `app/lib.rs` — copies of library types with `thiserror` and Borsh derives.
