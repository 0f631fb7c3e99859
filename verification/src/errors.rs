//! The error taxonomy of the client.
//!
//! Every failure a core operation can report is one of these variants;
//! the I/O layer maps transport failures into `TransportError` before
//! handing results to the core.

use vstd::prelude::*;

verus! {

/// An error of one client operation.
#[derive(Debug)]
pub enum PaperlessToolError {
    /// Resolution of a correspondent (by id or by name) or of a task
    /// found no record.
    NotFound,
    /// Resolution by name found more than one exact match; `matches`
    /// says how many.
    Ambiguous { matches: usize },
    /// A network or HTTP failure, with the transport's own message.
    TransportError { message: String },
    /// A server-side job reported failure; `message` is the
    /// server-reported result text if it sent one.
    TaskFailed { message: String },
    /// The deletion safety gate tripped: the correspondent still has
    /// documents and `force` was not given.
    UnableToDelete { id: i32, reason: String },
    /// The configuration could not be read or written.
    ConfigError { message: String },
}

impl Clone for PaperlessToolError {
    fn clone(&self) -> (r: Self)
        ensures
            r == *self,
    {
        match self {
            PaperlessToolError::NotFound => PaperlessToolError::NotFound,
            PaperlessToolError::Ambiguous { matches } => PaperlessToolError::Ambiguous {
                matches: *matches,
            },
            PaperlessToolError::TransportError { message } => PaperlessToolError::TransportError {
                message: message.clone(),
            },
            PaperlessToolError::TaskFailed { message } => PaperlessToolError::TaskFailed {
                message: message.clone(),
            },
            PaperlessToolError::UnableToDelete { id, reason } => PaperlessToolError::UnableToDelete {
                id: *id,
                reason: reason.clone(),
            },
            PaperlessToolError::ConfigError { message } => PaperlessToolError::ConfigError {
                message: message.clone(),
            },
        }
    }
}

} // verus!
