# cw_shitstrap

Shitstraps are permissionless, single-use OTC swaps on a CosmWasm chain:
participants pay one of the accepted tokens and receive the strapped token at
a fixed rate until the strapped value reaches a cutoff. The payment that
reaches it closes the shitstrap, sends the owner what was paid in and leaves
its sender a refund of the overshoot. The owner may close it early and is
then sent what was paid in and the strapped tokens not handed out. A factory
creates shitstraps and lists them.

Layout:

- `src/`: the verified library (Verus). Every decision of the contracts
  stands here with its contract: instantiation checks, participation,
  flushing, refunds, queries, the factory's listing and bookkeeping, and the
  laws that hold across calls (`shitstrap_laws.rs`, and the `law_*` proof
  functions of `decimal_strap.rs` and `factory.rs`). Calls into cosmwasm-std
  and cw-denom stand behind the trusted items of `cosmos.rs` and `denom.rs`.
- `app/`: the chain-facing entry points (storage, address validation, JSON
  messages, replies), which hand plain values to the library.
- `tests/`: scenario tests, run against a small bank simulator.
