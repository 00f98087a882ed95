//! Signalling and session plane of a remote-desktop streaming host: wire
//! framing, message envelopes, handler decisions, controller slots and GPU
//! selection, each with a machine-checked contract.

pub mod args;
pub mod controller;
pub mod discovery;
pub mod framing;
pub mod gpu;
pub mod message;
pub mod protocol;
pub mod signaller;
pub mod text;
pub mod varint;
