use vstd::prelude::*;
use vstd::string::StringExecFns;
use ollama_rs::error::OllamaError;
use crate::ollama_api::{ollama_error_message, ollama_failure, ollama_failure_of, OllamaFailure};

verus! {

/// What went wrong, as far as a caller deciding whether to retry needs to know.
#[derive(Debug, Clone, Copy, PartialEq, Eq, Structural)]
pub enum ErrorKind {
    /// A required setting was absent when a component was built.
    ConfigurationMissing,
    /// The inference or vector backend could not be reached.
    BackendTransport,
    /// The backend refused the request (unknown model, malformed request).
    BackendRejected,
    /// A raw response could not be turned into the requested type.
    ConversionFailed,
    /// An entity was not in a state that allows the operation.
    ValidationFailed,
}

/// An error of the orchestration layer: its kind and a message for people.
#[derive(Debug, Clone)]
pub struct RagError {
    pub kind: ErrorKind,
    pub message: String,
}

/// The kind of error that a failure of the inference client stands for: a
/// failed HTTP exchange is the transport's, an undecodable reply a failed
/// conversion, anything the service or a tool reported a rejection.
pub open spec fn failure_kind(f: OllamaFailure) -> ErrorKind {
    match f {
        OllamaFailure::Reqwest => ErrorKind::BackendTransport,
        OllamaFailure::Json => ErrorKind::ConversionFailed,
        _ => ErrorKind::BackendRejected,
    }
}

pub fn kind_of_failure(f: OllamaFailure) -> (r: ErrorKind)
    ensures
        r == failure_kind(f),
{
    match f {
        OllamaFailure::Reqwest => ErrorKind::BackendTransport,
        OllamaFailure::Json => ErrorKind::ConversionFailed,
        _ => ErrorKind::BackendRejected,
    }
}

impl RagError {
    /// The error for a failed call of the inference client, with its message.
    pub fn from_ollama(e: &OllamaError) -> (r: RagError)
        ensures
            r.kind == failure_kind(ollama_failure_of(*e)),
    {
        RagError::from_failure(ollama_failure(e), ollama_error_message(e))
    }

    /// The error for a failure of the inference client of the given variant.
    pub fn from_failure(failure: OllamaFailure, message: String) -> (r: RagError)
        ensures
            r.kind == failure_kind(failure),
            r.message@ == message@,
    {
        RagError { kind: kind_of_failure(failure), message }
    }

    pub fn new(kind: ErrorKind, message: &str) -> (r: RagError)
        ensures
            r.kind == kind,
            r.message@ == message@,
    {
        RagError { kind, message: String::from_str(message) }
    }

    pub fn kind(&self) -> (r: ErrorKind)
        ensures
            r == self.kind,
    {
        self.kind
    }
}

} // verus!
