//! Workflow orchestration with human-in-the-loop: the workflow context that
//! is carried through a document workflow, the version registry used for
//! checkpoint compatibility, and the error types.

pub mod clock;
pub mod context;
pub mod error;
pub mod external;
pub mod keyed;
pub mod version;

pub use context::AgentType;
pub use version::{VersionCompatibility, VersionRegistry, WorkflowVersion};
pub use context::{
    AgentResult, ApprovalDecision, ApprovalRequest, AuditAction, AuditActor, AuditEntry,
    DocumentCategory, DocumentRequest, DocumentType, HumanModification, RequestPriority,
    WorkflowContext,
};
pub use error::{CheckpointError, CompatibilityError, ErrorSeverity, StateError};
