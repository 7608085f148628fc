//! Client-side core of a browser chat: the wire codec, the roster and
//! message log, and the composition of outbound frames.
pub mod json;
pub mod wire;
pub mod chat;
