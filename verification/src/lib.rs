//! Keeps an off-chain copy of canister data: what to ask a canister for,
//! how far a sync has come, and which rows to write for what came back.

pub mod text;
pub mod leb128;
pub mod wire;
pub mod types;
pub mod store;
pub mod sync;
pub mod schema;
