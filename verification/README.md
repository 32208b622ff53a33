# rollup_core

The core of a rollup on Solana, written and verified in Verus.

- `src/ledger.rs`: keys, hashes, signatures, accounts and transactions.
- `src/proofs.rs`, `src/proof_table.rs`: batch proofs, their records and the table of all records.
- `src/byte_map.rs`: a map keyed by 32-byte strings.
- `src/rollupdb.rs`: the database of accounts, processed transactions and batch proofs.
- `src/service.rs`: the database as a state machine that takes messages and asks for what it needs.
- `src/rpc.rs`, `src/rpc_session.rs`: the JSON-RPC methods, and one body of calls as a state
  machine.
- `src/json.rs`, `src/text.rs`, `src/solana.rs`: JSON values, text, and the calls into the Solana
  SDK, bincode and base64 with the contracts that the rest relies on.
- `src/laws.rs`, `src/rpc_laws.rs`: what holds of the service and of the JSON-RPC interface over
  all their steps.
- `app/`: channels, layer 1, files and HTTP around the library.
