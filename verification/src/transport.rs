//! Boundary to the socket transport. The relay hands each planned emission
//! to the transport's broadcast primitive; delivery is best-effort and no
//! outcome is reported back, so nothing is assumed of it.
//!
//! `socketioxide::SocketIo` cannot be declared to the verifier directly
//! (its type parameter is bound by an outside trait), so the handle is
//! held opaquely in a struct of this crate instead.
use vstd::prelude::*;

verus! {

/// Handle on the socket transport.
#[verifier::external_body]
pub struct Transport {
    /// The underlying socket.io handle, supplied by the embedding server.
    pub io: socketioxide::SocketIo<socketioxide::adapter::LocalAdapter>,
}

impl Transport {
    /// Relies on socketioxide's `SocketIo::of` and
    /// `BroadcastOperators::emit`: wraps the value in an object under a
    /// `payload` key and broadcasts it as an event named after the
    /// channel, to every subscriber of the root namespace. Emission is
    /// fire-and-forget: a send failure, a missing root namespace or an
    /// empty audience is swallowed, so nothing is promised of the outcome.
    #[verifier::external_body]
    pub(crate) fn emit_to_channel(&self, channel: &str, payload: &serde_json::Value) {
        let mut message = serde_json::Map::new();
        message.insert("payload".to_string(), payload.clone());
        if let Some(op) = self.io.of("/") {
            let _ = op.emit(channel, &serde_json::Value::Object(message));
        }
    }
}

} // verus!
