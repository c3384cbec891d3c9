//! Client-side transaction pipeline for a Cosmos-SDK chain.
//!
//! The library models the full lifecycle of a contract transaction —
//! account resolution, gas simulation, fee computation, broadcast
//! confirmation and event extraction — as verified logic over plain
//! values.  Network transport and cryptographic signing are performed
//! by the caller, which drives a [`lifecycle::TxLifecycle`] value from
//! stage to stage; the protobuf wire codecs are reached through the
//! trusted declarations in [`wire`].

pub mod config;
pub mod error;
pub mod events;
pub mod fee;
pub mod lifecycle;
pub mod parse;
pub mod tx;
pub mod wire;
