//! The failures that the library reports.

use crate::text::{decimal, push_decimal};
use vstd::prelude::*;

verus! {

/// What went wrong in a cloud-storage operation.
#[derive(Debug)]
pub enum CloudError {
    /// The host has no cloud-container support at all.
    PlatformUnsupported,
    /// Cloud support exists but no container can be used; carries the reason.
    Unavailable(String),
    /// The bounded wait elapsed; carries the bound in seconds.
    Timeout(u64),
    /// The bounded wait for the database path's container lookup elapsed.
    PathCheckTimeout,
    /// A file operation failed; carries the system's text.
    Io(String),
    /// A database file failed its integrity check; carries the finding.
    Integrity(String),
    /// A write target lies outside the container; carries the path.
    PathRejected(String),
}

/// The text shown to a user for an error.
pub open spec fn error_text(e: CloudError) -> Seq<char> {
    match e {
        CloudError::PlatformUnsupported => "iCloud is only available on macOS and iOS"@,
        CloudError::Unavailable(reason) => reason@,
        CloudError::Timeout(secs) => "iCloud check timed out after "@ + decimal(secs as nat)
            + " seconds"@,
        CloudError::PathCheckTimeout => "iCloud path check timed out"@,
        CloudError::Io(detail) => detail@,
        CloudError::Integrity(detail) => detail@,
        CloudError::PathRejected(path) => "Path is outside the iCloud container: "@ + path@,
    }
}

impl CloudError {
    /// A human-readable description, safe to show as it is.
    pub fn message(&self) -> (r: String)
        ensures
            r@ == error_text(*self),
    {
        match self {
            CloudError::PlatformUnsupported => String::from_str(
                "iCloud is only available on macOS and iOS",
            ),
            CloudError::Unavailable(reason) => reason.clone(),
            CloudError::Timeout(secs) => {
                let mut s = String::from_str("iCloud check timed out after ");
                push_decimal(&mut s, *secs);
                s.append(" seconds");
                s
            },
            CloudError::PathCheckTimeout => String::from_str("iCloud path check timed out"),
            CloudError::Io(detail) => detail.clone(),
            CloudError::Integrity(detail) => detail.clone(),
            CloudError::PathRejected(path) => {
                let mut s = String::from_str("Path is outside the iCloud container: ");
                s.append(path.as_str());
                s
            },
        }
    }
}

} // verus!
