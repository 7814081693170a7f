//! A bidirectional session protocol for real-time voice bridges.
//!
//! Two peers exchange control messages (requests, responses, events) and raw
//! media frames over one duplex connection. This library is the protocol
//! engine, without any I/O of its own:
//!
//! - `message`, `header`, `wire`: the messages and their form on the wire;
//! - `correlator`: the requests that wait for their response;
//! - `registry`: the handlers of the application, by name;
//! - `session`, `handler`, `server`: the engine of one session, what its
//!   handlers see of it, and its keepalive;
//! - `ext`, `request`, `response`, `event`, `op`: the payloads of the
//!   protocol and their JSON form;
//! - `json`, `fields`, `tags`: JSON values and ordered sets, as the crates
//!   `serde_json` and `indexmap` provide them;
//! - `docs`: the names under which the operations are documented.
pub mod correlator;
pub mod docs;
pub mod event;
pub mod ext;
pub mod fields;
pub mod handler;
pub mod header;
pub mod json;
pub mod message;
pub mod op;
pub mod registry;
pub mod request;
pub mod response;
pub mod server;
pub mod session;
pub mod tags;
pub mod wire;
