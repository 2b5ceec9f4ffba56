use vstd::prelude::*;

verus! {

/// The failures the engine surfaces to its caller.
#[derive(Debug, Clone)]
pub enum EngineError {
    /// The inference server could not be reached or is not answering.
    ServerUnavailable,
    /// The server answered with a non-success status; carries the response
    /// body verbatim.
    ServerError(String),
    /// A response did not match the expected JSON shape.
    ProtocolError(String),
    /// No active pack, an unknown pack id, or a failing config store.
    ConfigError(String),
    /// A model failed to pull during installation; names that model.
    PartialInstallFailure(String),
}

} // verus!
