//! Integration layer for the control interface that a locally running League
//! client exposes on the loopback device.
//!
//! The crate holds the decisions of that layer as verified functions on plain
//! values: how a lockfile or a process listing yields credentials, which
//! requests are sent, how replies and stream frames are decoded, and how the
//! event stream moves through its lifecycle. Reading files, talking to the
//! network and handing events to a consumer are left to the caller.

pub mod client;
pub mod detector;
pub mod error;
pub mod json;
pub mod snapshot;
pub mod store;
pub mod text;
pub mod types;
pub mod websocket;
