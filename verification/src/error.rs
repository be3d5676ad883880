//! The error taxonomy of the capture pipeline and its surrounding
//! application layer.
//!
//! Session-controller operations fail with `NotFound` when a capture
//! target or a named input device does not exist, with `Audio` when the
//! platform refuses to open or configure an input, with `Io` when the
//! output file cannot be created, written or finalized, and with `Logic`
//! when an operation arrives in the wrong state (stop with no active
//! session, start while one is active).

use vstd::prelude::*;
use vstd::string::StringExecFns;

verus! {

/// Application-level error, tagged by kind, carrying a message.
#[derive(Debug)]
pub enum AppError {
    Io(String),
    Network(String),
    Serialization(String),
    Audio(String),
    Validation(String),
    NotFound(String),
    Logic(String),
    Unexpected(String),
}

impl AppError {
    /// The message carried by the error.
    pub fn message(&self) -> (m: &String)
        ensures
            m@ == self.message_view(),
    {
        match self {
            AppError::Io(m) => m,
            AppError::Network(m) => m,
            AppError::Serialization(m) => m,
            AppError::Audio(m) => m,
            AppError::Validation(m) => m,
            AppError::NotFound(m) => m,
            AppError::Logic(m) => m,
            AppError::Unexpected(m) => m,
        }
    }

    /// The message carried by the error.
    pub open spec fn message_view(&self) -> Seq<char> {
        match self {
            AppError::Io(m) => m@,
            AppError::Network(m) => m@,
            AppError::Serialization(m) => m@,
            AppError::Audio(m) => m@,
            AppError::Validation(m) => m@,
            AppError::NotFound(m) => m@,
            AppError::Logic(m) => m@,
            AppError::Unexpected(m) => m@,
        }
    }

    /// An *Invalid State* error with the given description.
    pub fn invalid_state(msg: &str) -> (e: AppError)
        ensures
            e matches AppError::Logic(m) && m@ == msg@,
    {
        AppError::Logic(String::from_str(msg))
    }

    /// A *Target Not Found* error with the given description.
    pub fn not_found(msg: &str) -> (e: AppError)
        ensures
            e matches AppError::NotFound(m) && m@ == msg@,
    {
        AppError::NotFound(String::from_str(msg))
    }
}

impl From<String> for AppError {
    /// A bare message becomes an unclassified error.
    fn from(msg: String) -> (e: AppError)
        ensures
            e == AppError::Unexpected(msg),
    {
        AppError::Unexpected(msg)
    }
}

impl vstd::std_specs::convert::FromSpecImpl<String> for AppError {
    open spec fn obeys_from_spec() -> bool {
        true
    }

    open spec fn from_spec(msg: String) -> AppError {
        AppError::Unexpected(msg)
    }
}

} // verus!
