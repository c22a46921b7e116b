//! Off-chain agent core for watching a ledger contract event and driving a
//! commit–reveal protocol: block-cursor polling decisions, event decoding,
//! nonce-safe transaction construction, and bounded submission retry.

pub mod block_streamer;
pub mod event;
pub mod miner;
pub mod models;
pub mod nonce_manager;
pub mod signer;
pub mod strutil;
pub mod tx_builder;
pub mod tx_sender;
