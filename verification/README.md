# submit_block

Decides whether a submitted rollup block may lead from one global state to the next.

- `src/`: the verified library. `SubmitBlockVerifier::verify` takes the answers that its host has
  given so far and returns the verdict, or the next question to the host. `laws.rs` states what
  holds of every submission.
- `tests/`: each check by itself, and whole submissions.
- `app/`: the loop that puts the questions to a host, and the host that a contract on chain has.

The only outside code in the library is the chain's hash function, from `ckb-hash`.
