//! The core of a rollup: the database that locks accounts, files processed transactions and keeps
//! batch proofs, and the JSON-RPC interface in front of it.
//!
//! [`service::RollupService`] and [`rpc_session::RpcSession`] are state machines: the caller hands
//! them what happened, and does what they ask for.
pub mod byte_map;
pub mod json;
pub mod laws;
pub mod ledger;
pub mod proof_table;
pub mod proofs;
pub mod rollupdb;
pub mod rpc;
pub mod rpc_laws;
pub mod rpc_session;
pub mod service;
pub mod solana;
pub mod text;
