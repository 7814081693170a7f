//! The operations of the protocol: the payloads of its requests, responses
//! and events.
pub mod application;
pub mod audio;
pub mod log;
pub mod ping;
pub mod playback;
pub mod recording;
pub mod session;
