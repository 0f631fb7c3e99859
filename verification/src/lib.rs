//! Verified core of a command-line client for a document-management
//! service: correspondent resolution, document enumeration, an
//! asynchronous-task polling state machine, and a bulk migration
//! orchestrator with a safety-gated delete.
//!
//! All network and file I/O lives outside this library; the functions
//! here take plain values (server responses already decoded) and decide
//! what happens next.

pub mod config;
pub mod correspondent;
pub mod documents;
pub mod errors;
pub mod migration;
pub mod task;
