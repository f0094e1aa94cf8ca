//! A verified, I/O-free core for reading an on-chain AVS registry.

pub mod bigint;
pub mod bitmap;
pub mod error;
pub mod events;
pub mod laws;
pub mod protocol;
pub mod reader;
pub mod txmgr;
pub mod types;
pub mod word;
