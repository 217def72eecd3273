//! Relay of Ethereum PoA headers to a Substrate runtime: header bookkeeping,
//! the synchronization decisions, and the byte framing of the Substrate RPCs.

pub mod ethereum_headers;
pub mod ethereum_sync;
pub mod ethereum_types;
pub mod rpc_text;
pub mod scale_codec;
pub mod substrate_types;
pub mod substrate_client;
