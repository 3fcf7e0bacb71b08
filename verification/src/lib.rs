//! Core of a chain-event ingestion and fan-out system: a predictor for the
//! next block's base fee, the normalized event model, the producers'
//! decision logic, and a bounded broadcast bus with per-consumer cursors.

pub mod bus;
pub mod events;
pub mod producers;
pub mod fee;
pub mod uint256;
