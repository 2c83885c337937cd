//! Core model of an HTTP/WebSocket client engine: client configuration,
//! per-request planning, the response-body lifecycle, streaming buffers,
//! and the WebSocket command actor, with verified contracts.
//!
//! The engine decides; the transport edge acts. Network sends, socket
//! reads, timers and file access live outside this crate and communicate
//! with it through plain values: the planners produce fully resolved wire
//! requests, the body and stream state machines are driven with the
//! outcomes of collects and pulls, and the WebSocket actor turns submitted
//! commands into the actions the socket owner must perform.

pub mod base64;
pub mod body;
pub mod client;
pub mod config;
pub mod cookies;
pub mod dns;
pub mod error;
pub mod form;
pub mod headers;
pub mod http;
pub mod json;
pub mod multipart;
pub mod outside;
pub mod redirect;
pub mod request;
pub mod response;
pub mod stream;
pub mod util;
pub mod ws;

use vstd::prelude::*;

verus! {

} // verus!
