//! Locating the cloud container, bounding the wait for the platform's
//! answer, and the status records built from the outcome.

use crate::error::{error_text, CloudError};
use crate::paths::{
    documents_dir, documents_dir_of, fallback_container_path, fallback_path_of,
    legacy_database_of, legacy_database_path,
};
use crate::timestamp::{chrono_lite_now, iso_timestamp};
use vstd::prelude::*;

verus! {

/// How long a caller waits for the platform's container lookup by default.
pub const DEFAULT_TIMEOUT_SECS: u64 = 10;

/// The reason given when neither the platform nor the disk offers a container.
pub const NOT_PROVISIONED: &'static str =
    "iCloud container not available. Make sure iCloud Drive is enabled and you are signed in.";

/// The reason recorded in a sync status when no container can be used.
pub const SYNC_UNAVAILABLE: &'static str = "iCloud not available";

/// What the platform said when asked for the container.
#[derive(Debug)]
pub enum NativeLookup {
    /// The host has no cloud-container support.
    Unsupported,
    /// The platform bridge failed before it could answer; carries its message.
    BridgeFailed(String),
    /// The platform answered.
    Answered {
        /// The container path that the primary lookup gave, if any.
        url_path: Option<String>,
        /// Whether a cloud identity is signed in.
        signed_in: bool,
        /// The user's home directory.
        home: String,
        /// Whether the daemon's directory for the container,
        /// `fallback_container_path(home)`, exists on disk.
        fallback_on_disk: bool,
    },
}

/// A usable container.
#[derive(Debug)]
pub struct Container {
    /// The container's absolute path.
    pub path: String,
    /// The path came from the disk fallback, not from the primary lookup.
    pub via_fallback: bool,
}

/// How a bounded wait ended.
#[derive(Debug)]
pub enum WaitOutcome<T> {
    /// The operation finished in time with this result.
    Completed(T),
    /// The bound elapsed first; the operation's result, if any, is dropped.
    TimedOut,
}

/// Decides the container from the platform's answer. The primary lookup is
/// trusted when it gives a path. When it gives none, the daemon's directory
/// is used if it exists on disk and a cloud identity is signed in.
pub fn get_icloud_container_url(lookup: NativeLookup) -> (r: Result<Container, CloudError>)
    ensures
        match lookup {
            NativeLookup::Unsupported => r matches Err(CloudError::PlatformUnsupported),
            NativeLookup::BridgeFailed(m) => r matches Err(CloudError::Unavailable(t)) && t@
                == m@,
            NativeLookup::Answered { url_path, signed_in, home, fallback_on_disk } => match url_path {
                Some(p) => r matches Ok(c) && c.path@ == p@ && !c.via_fallback,
                None => if signed_in && fallback_on_disk {
                    r matches Ok(c) && c.path@ == fallback_path_of(home@) && c.via_fallback
                } else {
                    r matches Err(CloudError::Unavailable(t)) && t@ == NOT_PROVISIONED@
                },
            },
        },
{
    match lookup {
        NativeLookup::Unsupported => Err(CloudError::PlatformUnsupported),
        NativeLookup::BridgeFailed(m) => Err(CloudError::Unavailable(m)),
        NativeLookup::Answered { url_path, signed_in, home, fallback_on_disk } => match url_path {
            Some(p) => Ok(Container { path: p, via_fallback: false }),
            None => {
                if signed_in && fallback_on_disk {
                    Ok(Container { path: fallback_container_path(home.as_str()), via_fallback: true })
                } else {
                    Err(CloudError::Unavailable(String::from_str(NOT_PROVISIONED)))
                }
            },
        },
    }
}

/// The result of a bounded wait: the operation's own result when it
/// finished in time, a timeout carrying the bound otherwise.
pub fn settle_wait<T>(outcome: WaitOutcome<T>, timeout_secs: u64) -> (r: Result<T, CloudError>)
    ensures
        match outcome {
            WaitOutcome::Completed(v) => r == Ok::<T, CloudError>(v),
            WaitOutcome::TimedOut => r matches Err(CloudError::Timeout(s)) && s == timeout_secs,
        },
{
    match outcome {
        WaitOutcome::Completed(v) => Ok(v),
        WaitOutcome::TimedOut => Err(CloudError::Timeout(timeout_secs)),
    }
}

/// The container after a bounded wait for the lookup: the lookup's own
/// result when it finished in time, a timeout otherwise.
pub fn settle_container(
    outcome: WaitOutcome<Result<Container, CloudError>>,
    timeout_secs: u64,
) -> (r: Result<Container, CloudError>)
    ensures
        match outcome {
            WaitOutcome::Completed(v) => r == v,
            WaitOutcome::TimedOut => r matches Err(CloudError::Timeout(s)) && s == timeout_secs,
        },
{
    match settle_wait(outcome, timeout_secs) {
        Ok(v) => v,
        Err(e) => Err(e),
    }
}

/// Whether the container can be used, where it is, or why not.
#[derive(Debug)]
pub struct ICloudStatus {
    pub available: bool,
    pub container_path: Option<String>,
    pub error: Option<String>,
}

/// The availability record for a resolved (or failed) container.
pub fn check_icloud_status(resolved: Result<Container, CloudError>) -> (r: ICloudStatus)
    ensures
        match resolved {
            Ok(c) => r.available && r.container_path == Some(c.path) && r.error is None,
            Err(e) => {
                &&& !r.available
                &&& r.container_path is None
                &&& r.error matches Some(t) && t@ == error_text(e)
            },
        },
{
    match resolved {
        Ok(c) => ICloudStatus { available: true, container_path: Some(c.path), error: None },
        Err(e) => ICloudStatus { available: false, container_path: None, error: Some(e.message()) },
    }
}

/// Where the legacy database lives inside the container.
#[derive(Debug)]
pub struct LegacyLocation {
    /// The directory that holds it; it must exist before the file is used.
    pub documents_dir: String,
    /// The database's primary file.
    pub database: String,
}

/// The legacy database location inside a resolved container. A lookup that
/// timed out is reported as the path check timing out; any other failed
/// resolution is passed on.
pub fn get_icloud_database_path(resolved: Result<Container, CloudError>) -> (r: Result<
    LegacyLocation,
    CloudError,
>)
    ensures
        match resolved {
            Ok(c) => r matches Ok(l) && l.documents_dir@ == documents_dir_of(c.path@)
                && l.database@ == legacy_database_of(c.path@),
            Err(CloudError::Timeout(_)) => r matches Err(e) && e is PathCheckTimeout
                && error_text(e) == "iCloud path check timed out"@,
            Err(e) => r == Err::<LegacyLocation, CloudError>(e),
        },
{
    match resolved {
        Ok(c) => Ok(
            LegacyLocation {
                documents_dir: documents_dir(c.path.as_str()),
                database: legacy_database_path(c.path.as_str()),
            },
        ),
        Err(CloudError::Timeout(_)) => Err(CloudError::PathCheckTimeout),
        Err(e) => Err(e),
    }
}

/// The sync state shown to a user.
#[derive(Clone, Copy, Debug, PartialEq, Eq, Structural)]
pub enum SyncState {
    /// Idle, with every change synced.
    Synced,
    /// Changes are being synced.
    Syncing,
    /// Offline, with changes pending.
    Offline,
    /// Syncing failed.
    Error,
    /// No container can be used.
    Unavailable,
}

/// The sync status record shown to a user.
#[derive(Debug)]
pub struct SyncStatus {
    pub state: SyncState,
    /// When the last sync finished, as `YYYY-MM-DDTHH:MM:SSZ`.
    pub last_sync: Option<String>,
    pub pending_changes: u32,
    pub error: Option<String>,
}

/// The sync status for a resolved (or failed) container: synced as of now
/// when the container can be used, unavailable otherwise.
pub fn get_sync_status(resolved: &Result<Container, CloudError>) -> (r: SyncStatus)
    ensures
        r.pending_changes == 0,
        match resolved {
            Ok(_) => {
                &&& r.state == SyncState::Synced
                &&& r.error is None
                &&& r.last_sync matches Some(t) && exists|secs: u64| t@ == iso_timestamp(secs as nat)
            },
            Err(_) => {
                &&& r.state == SyncState::Unavailable
                &&& r.last_sync is None
                &&& r.error matches Some(t) && t@ == SYNC_UNAVAILABLE@
            },
        },
{
    match resolved {
        Ok(_) => SyncStatus {
            state: SyncState::Synced,
            last_sync: Some(chrono_lite_now()),
            pending_changes: 0,
            error: None,
        },
        Err(_) => SyncStatus {
            state: SyncState::Unavailable,
            last_sync: None,
            pending_changes: 0,
            error: Some(String::from_str(SYNC_UNAVAILABLE)),
        },
    }
}

} // verus!
