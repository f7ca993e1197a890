//! Core of a real-time event relay: a registry of connected clients, the
//! validation and fan-out rules that turn one send-event request into
//! per-channel emissions, and the builders for the control-plane responses.
pub mod dispatch;
pub mod host;
pub mod jsonval;
pub mod registry;
pub mod render;
pub mod surface;
pub mod transport;
