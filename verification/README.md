# cf_state_chain

Verified weights and channel bookkeeping of Chainflip state-chain pallets.

- `src/weight.rs`: the two-dimensional `Weight`, database weights, and the
  saturating arithmetic on them, computed by `frame_support`.
- `src/relayer.rs`, `src/reputation.rs`, `src/witnesser.rs`: each pallet's
  `WeightInfo`, its benchmarked formulas, and the RocksDB defaults.
- `src/ingress_egress.rs`: which expired deposit channels may be recycled.
- `app/lib.rs`: glue that takes the database weights from a FRAME runtime.
