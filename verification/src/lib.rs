//! Conversion of Starknet node data (block headers, state updates, transactions,
//! receipts and events) into the messages of the peer-to-peer sync protocol.

pub mod common;
pub mod felt;
pub mod fields;
pub mod proto;

pub use felt::Felt;
pub mod conv;
pub mod laws;

pub use conv::ToProto;
