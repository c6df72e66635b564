use std::time::{SystemTime, UNIX_EPOCH};

use vstd::prelude::*;

use crate::text::copy_str;

verus! {

#[derive(Debug, Clone, Copy, PartialEq, Eq, Structural)]
pub enum AuditOutcome {
    Started,
    Succeeded,
    Failed,
    Cancelled,
    Blocked,
}

impl AuditOutcome {
    /// The outcome as written in the trail.
    pub fn label(&self) -> (r: &'static str)
        ensures
            r@ == match self {
                AuditOutcome::Started => "started"@,
                AuditOutcome::Succeeded => "succeeded"@,
                AuditOutcome::Failed => "failed"@,
                AuditOutcome::Cancelled => "cancelled"@,
                AuditOutcome::Blocked => "blocked"@,
            },
    {
        match self {
            AuditOutcome::Started => "started",
            AuditOutcome::Succeeded => "succeeded",
            AuditOutcome::Failed => "failed",
            AuditOutcome::Cancelled => "cancelled",
            AuditOutcome::Blocked => "blocked",
        }
    }
}

/// One line of the audit trail.
#[derive(Debug, Clone, PartialEq, Eq)]
pub struct AuditRecord {
    pub timestamp_unix_ms: u128,
    pub profile_name: Option<String>,
    pub database: Option<String>,
    pub outcome: AuditOutcome,
    pub sql: String,
    pub rows_streamed: Option<u64>,
    pub elapsed_ms: Option<u128>,
    pub error: Option<String>,
}

/// Milliseconds since the Unix epoch now; 0 when the clock is before it.
///
/// Relies on `SystemTime::now` and `duration_since(UNIX_EPOCH)`: nothing is promised of
/// the clock's value.
#[verifier::external_body]
pub fn unix_timestamp_millis() -> (r: u128) {
    SystemTime::now().duration_since(UNIX_EPOCH).unwrap_or_default().as_millis()
}

/// Where audit records are appended, one JSON object per line.
#[derive(Debug, Clone)]
pub struct FileAuditTrail {
    path: String,
}

impl FileAuditTrail {
    pub closed spec fn path_view(&self) -> Seq<char> {
        self.path@
    }

    pub fn from_path(path: &str) -> (r: Self)
        ensures
            r.path_view() == path@,
    {
        FileAuditTrail { path: copy_str(path) }
    }

    pub fn path(&self) -> (r: &str)
        ensures
            r@ == self.path_view(),
    {
        self.path.as_str()
    }
}

} // verus!
