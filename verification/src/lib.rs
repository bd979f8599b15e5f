//! Pitch transposition for a live MIDI stream, together with the shared
//! runtime state that the control surfaces read and write.
//!
//! The note transposer is in `transpose`, the shared state with its
//! clamping setter in `state`, and the queues between the stages in
//! `queue`. The stages themselves are `forwarder` (input listener and
//! forwarder) and `relay` (control messages for the animation target,
//! with their wire form in `wire`). The control surfaces are `command`
//! (command line), `control` and `datagram` (control-protocol listener)
//! and `bridge` with `discovery` (broker). `config`, `ports`, `status`,
//! `text` and `float_bits` serve the others.

pub mod bridge;
pub mod command;
pub mod config;
pub mod control;
pub mod datagram;
pub mod discovery;
pub mod float_bits;
pub mod forwarder;
pub mod ports;
pub mod queue;
pub mod relay;
pub mod state;
pub mod status;
pub mod text;
pub mod transpose;
pub mod wire;
