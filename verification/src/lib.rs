//! Decision core of the Devmode consensus engine.
//!
//! The engine decides when a validator publishes a block, which proposed
//! blocks pass its consensus check and which of two competing chains wins.
//! Everything here works on plain values: the caller performs the requests
//! that the engine asks for and hands back what came of them.

pub mod block;
pub mod bytes;
pub mod consensus;
pub mod engine;
pub mod fork;
pub mod invariants;
pub mod message;
pub mod service;
pub mod text;
pub mod update;
pub mod wait;
