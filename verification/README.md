# pathfinder_core

The parts of a Starknet full node that can be stated and proved: how transactions are stored, what the
sync process decides, and the shapes in which data leaves the node.

- `src/` is the library. Every function in it is verified with Verus.
  - `bytes`, `felt`, `common`: numbers as bytes, field elements and the vocabulary of the chain.
  - `storage`: the rows of the `transactions` table. `codec` and `format` define the stored form over the
    primitives of `bincode` (`wire`), `convert` and `rows` relate it to transactions, receipts and events,
    `compression` wraps `zstd`, and `transaction` answers requests on a row. `migration` interns contract
    addresses, and `dummy` builds rows for trying things out.
  - `sync`: analysis of L1 checkpoints, the order of the sync steps, the sync of receipts, pipelines and
    chunks, as state machines that are told what happened and say what to do next.
  - `rpc`: JSON fields of transactions and block headers.
- `app/` runs the queries, the tasks and the requests around the library.
- `tests/` runs the library, with the real `bincode`, `zstd` and SQLite.

Calls into other crates stand behind small functions marked `external_body`, in `storage/wire.rs` and
`storage/compression.rs`. Their contracts are not proved. Nor is the contract of `Stage::handle` in
`sync/stream.rs` for stages that are implemented outside the library. Everything else is.
