use vstd::prelude::*;

use crate::number::{decimal, decimal_text};

verus! {

/// The kinds of failure that the engine reports.
#[derive(Debug)]
pub enum TusError {
    /// A local filesystem operation failed.
    IOError(String),
    /// A transport failure: connect, read, timeout or TLS.
    NetworkError(String),
    /// The server answered with a status other than 2xx.
    Protocol(u16),
    /// A snapshot could not be parsed or serialized.
    SerdeError(String),
    /// No record, or no running worker, has the given id.
    UploadNotFound(String),
    /// A state change that the state machine forbids.
    InvalidState(String),
    /// A configuration value is invalid, or a response lacks a field
    /// that the protocol requires.
    Config(String),
}

pub type TusResult<T> = Result<T, TusError>;

/// The text that describes an error to a person.
pub open spec fn error_text(e: TusError) -> Seq<char> {
    match e {
        TusError::IOError(m) => "IO error: "@ + m@,
        TusError::NetworkError(m) => "Network error: "@ + m@,
        TusError::Protocol(s) => "Unexpected HTTP status: "@ + decimal(s as nat),
        TusError::SerdeError(m) => "Failed to serialize/deserialize: "@ + m@,
        TusError::UploadNotFound(m) => "Upload not found: "@ + m@,
        TusError::InvalidState(m) => "Invalid state transition: "@ + m@,
        TusError::Config(m) => "Configuration error: "@ + m@,
    }
}

impl TusError {
    /// The text that describes the error to a person.
    pub fn message(&self) -> (r: String)
        ensures
            r@ == error_text(*self),
    {
        let (mut head, tail) = match self {
            TusError::IOError(m) => (String::from_str("IO error: "), m.clone()),
            TusError::NetworkError(m) => (String::from_str("Network error: "), m.clone()),
            TusError::Protocol(s) => (String::from_str("Unexpected HTTP status: "), decimal_text(*s as u64)),
            TusError::SerdeError(m) => (String::from_str("Failed to serialize/deserialize: "), m.clone()),
            TusError::UploadNotFound(m) => (String::from_str("Upload not found: "), m.clone()),
            TusError::InvalidState(m) => (String::from_str("Invalid state transition: "), m.clone()),
            TusError::Config(m) => (String::from_str("Configuration error: "), m.clone()),
        };
        head.append(tail.as_str());
        head
    }
}

} // verus!
