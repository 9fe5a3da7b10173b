//! Client-side network session layer of a small multiplayer duck game:
//! the wire protocol's action tags, the envelope codec, the dispatcher from
//! envelopes to typed domain events, and the connection state machine that
//! drives the bootstrap, the per-tick pump and the outbound relays.
pub mod text;
pub mod action;
pub mod json;
pub mod codec;
pub mod payload;
pub mod dispatch;
pub mod session;
pub mod appearance;
pub mod board;
