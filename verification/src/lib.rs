//! A real-time broadcast relay: the envelope that goes over the wire, the
//! state actor that owns the session registry and the message history, and
//! the per-connection session logic, all as verified step functions.

pub mod channels;
pub mod json;
pub mod protocol;
pub mod server;
pub mod state;
