//! Core of a WGSL language server: the message-loop protocol state machine.
//!
//! The library models inbound protocol messages, tracks the session handshake
//! and shutdown state, validates document text through the WGSL front end,
//! translates validation failures into positional diagnostics, and decides,
//! for each inbound message, the next session state and the outbound message
//! (if any). Transport framing and JSON (de)serialization live outside the
//! library, in the surrounding binary.

pub mod diagnostics;
pub mod driver;
pub mod laws;
pub mod messages;
pub mod session;
pub mod validator;
