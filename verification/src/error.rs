//! The error taxonomy of the engine.
//!
//! Every failure the engine can report is one of these variants, so that a
//! caller can tell configuration mistakes, transport faults, decode problems,
//! body-lifecycle misuse, timeouts and closed WebSocket sessions apart.

use vstd::prelude::*;

verus! {

/// An error surfaced by the engine.
///
/// - `Config`: an invalid option detected while building a client or a
///   request (bad root-certificate data, malformed header name or value,
///   conflicting options). Always raised synchronously, never mid-flight.
/// - `Transport`: a connection, TLS or protocol-level failure reported by the
///   wire transport while sending or receiving.
/// - `Dns`: a name-resolution failure, kept distinct from `Transport` so a
///   caller can tell them apart.
/// - `RedirectLimit`: the configured redirect cap was exceeded.
/// - `Decode`: the body bytes could not be decoded as requested (invalid
///   UTF-8, invalid JSON). The buffered body itself stays readable.
/// - `BodyConsumed`: a body accessor was called after the body was taken for
///   streaming or closed.
/// - `Timeout`: an operation bound by an explicit timeout did not finish in
///   time; distinguishable from `Transport` so a caller can retry.
/// - `Disconnected`: a WebSocket command was submitted after the session
///   actor had already exited.
#[derive(Clone, Copy, PartialEq, Eq, Structural, Debug)]
pub enum Error {
    Config,
    Transport,
    Dns,
    RedirectLimit,
    Decode,
    BodyConsumed,
    Timeout,
    Disconnected,
}

impl Error {
    /// A short label for the error, for display by a host binding.
    pub fn label(&self) -> (r: &'static str)
        ensures
            self is Config ==> r@ == "configuration error"@,
            self is Transport ==> r@ == "transport error"@,
            self is Dns ==> r@ == "dns error"@,
            self is RedirectLimit ==> r@ == "redirect limit exceeded"@,
            self is Decode ==> r@ == "decode error"@,
            self is BodyConsumed ==> r@ == "body already consumed"@,
            self is Timeout ==> r@ == "operation timed out"@,
            self is Disconnected ==> r@ == "websocket disconnected"@,
    {
        match self {
            Error::Config => "configuration error",
            Error::Transport => "transport error",
            Error::Dns => "dns error",
            Error::RedirectLimit => "redirect limit exceeded",
            Error::Decode => "decode error",
            Error::BodyConsumed => "body already consumed",
            Error::Timeout => "operation timed out",
            Error::Disconnected => "websocket disconnected",
        }
    }
}

} // verus!
