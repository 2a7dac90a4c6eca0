//! Error types of the workflow orchestrator.
//!
//! Their messages are rendered where they are shown; the library only
//! carries them.

use vstd::prelude::*;

verus! {

/// Severity of an error, which decides retry behaviour.
#[derive(Debug, Clone, Copy, PartialEq, Eq, Structural)]
pub enum ErrorSeverity {
    /// Transient error - retry with backoff
    Transient,
    /// Permanent error - fail immediately
    Permanent,
}

/// State machine related errors.
#[derive(Debug, Clone, PartialEq, Eq)]
pub enum StateError {
    InvalidTransition { from: String, to: String },
    InvalidState(String),
    ReconstructionFailed(String),
    GuardFailed(String),
}

/// Version compatibility errors.
#[derive(Debug, Clone, PartialEq, Eq)]
pub enum CompatibilityError {
    VersionMismatch { checkpoint: String, current: String },
    UnsupportedVersion(String),
    MigrationNotSupported { from: String, to: String },
}

/// Declared so that checkpoint errors can carry JSON errors.
#[verifier::external_type_specification]
#[verifier::external_body]
pub struct ExJsonError(serde_json::Error);

/// Checkpoint related errors.
#[derive(Debug)]
pub enum CheckpointError {
    InvalidJson(serde_json::Error),
    InvalidState(String),
    NotFound(String),
    ValidationFailed(String),
    Storage(String),
}

} // verus!
