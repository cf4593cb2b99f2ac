//! Verified interop core for a native package-installation engine.
//!
//! The engine performs a blocking install and reports progress through
//! numeric status codes, opaque record handles and re-entrant callbacks.
//! This crate holds the decision logic of that interop layer: handle
//! ownership modelling, the two-call growable-buffer string retrieval
//! protocol, typed record field decoding, the message-category filter
//! mask, disposition marshalling, and the linear session state machine
//! that drives one install. Every native call is issued by the caller,
//! which feeds each raw result back into these verified functions.

use vstd::prelude::*;

pub mod handle;
pub mod fetch;
pub mod message;
pub mod record;
pub mod session;
pub mod trace;

verus! {

/// Failure of one step of the interop layer.
#[derive(Clone, Copy, Debug, PartialEq, Eq, Structural)]
pub enum Error {
    /// A native call returned this non-success status code.
    EngineCode(u32),
    /// Bytes handed back by the retrieval protocol were not valid UTF-8.
    TextDecodeFailure,
    /// A string bound for the engine contains an embedded NUL terminator.
    UnrepresentableString,
    /// The package path does not exist; detected before any native call.
    PathNotFound,
}

} // verus!
