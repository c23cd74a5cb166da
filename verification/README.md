# solana_tpu_client_cc

Slot-aware AIMD congestion control for Solana TPU clients, verified with Verus.

- `src/` is the verified library: the send-window state machine
  (`congestion.rs`), its properties over arbitrary signal sequences
  (`properties.rs`), the send-path counters (`metrics.rs`), the decisions of
  the client around the wait for a slot and the transport call, the batch
  tally and the failure pattern of the simulated transport (`tpu_client.rs`),
  and the shared types (`types.rs`, `error.rs`).
- `app/` holds what stays outside verification: the thread-safe handles, the
  wait loop (clock and sleep) of `send`, the
  floating-point RTT estimator and ratios, the metrics rendering, the
  `Sender` transport trait over `solana_sdk::transaction::Transaction`, and
  the serde / thiserror derives.
- `tests/` exercises the library on concrete values.
