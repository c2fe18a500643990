//! Error taxonomy of the pipeline.
//!
//! Per-record and per-cycle failures are isolated and never escalate:
//! only `ConfigurationInvalid` is fatal, since it prevents the pipeline
//! from starting at all.

use vstd::prelude::*;

verus! {

/// What can go wrong in one detection cycle or at startup.
#[derive(Clone, Copy, Debug, PartialEq, Eq, Structural)]
pub enum CoreError {
    /// The snapshot fetch failed: the whole cycle is skipped.
    SourceUnavailable,
    /// One snapshot or candidate failed to validate: only that record is dropped.
    MalformedRecord,
    /// A downstream persistence write failed for one record.
    PersistenceFailure,
    /// A downstream publish failed for one record.
    PublishFailure,
    /// Startup configuration failed validation: fatal.
    ConfigurationInvalid,
}

} // verus!
