//! Policy and status of driver updates.

use vstd::prelude::*;

verus! {

/// Policy for driver updates.
#[derive(Debug, Clone, Copy, PartialEq, Eq, Structural)]
#[non_exhaustive]
pub enum DriverUpdatePolicy {
    /// Download and use server-provided driver if available, fall back to
    /// built-in.
    Enabled,
    /// Always use built-in driver, never attempt update.
    Disabled,
    /// Require server-provided driver. Fail session creation if unavailable.
    Required,
}

impl Default for DriverUpdatePolicy {
    /// Updates are enabled unless a policy says otherwise.
    fn default() -> (policy: DriverUpdatePolicy)
        ensures
            policy == DriverUpdatePolicy::Enabled,
    {
        DriverUpdatePolicy::Enabled
    }
}

/// Status of the driver update for a session.
#[derive(Debug, Clone, PartialEq, Eq)]
#[non_exhaustive]
pub enum DriverUpdateStatus {
    /// Successfully loaded a server-provided driver.
    Updated {
        /// Version string of the loaded driver.
        version: String,
    },
    /// Server doesn't support driver updates.
    FallbackServerUnsupported,
    /// Already running the latest driver version.
    FallbackUpToDate,
    /// Download failed, using built-in.
    FallbackDownloadFailed {
        /// Reason for the failure.
        reason: String,
    },
    /// Signature verification failed, using built-in.
    FallbackSignatureFailed,
    /// ABI version mismatch, using built-in.
    FallbackAbiMismatch {
        /// Server driver ABI version.
        server_abi: u32,
        /// Client shim ABI version.
        client_abi: u32,
    },
    /// Driver update is disabled by policy.
    Disabled,
}

/// A [`DriverUpdateStatus`] with its texts as sequences of characters.
pub enum StatusView {
    Updated { version: Seq<char> },
    FallbackServerUnsupported,
    FallbackUpToDate,
    FallbackDownloadFailed { reason: Seq<char> },
    FallbackSignatureFailed,
    FallbackAbiMismatch { server_abi: u32, client_abi: u32 },
    Disabled,
}

impl View for DriverUpdateStatus {
    type V = StatusView;

    open spec fn view(&self) -> StatusView {
        match self {
            DriverUpdateStatus::Updated { version } => StatusView::Updated { version: version@ },
            DriverUpdateStatus::FallbackServerUnsupported => StatusView::FallbackServerUnsupported,
            DriverUpdateStatus::FallbackUpToDate => StatusView::FallbackUpToDate,
            DriverUpdateStatus::FallbackDownloadFailed { reason } =>
                StatusView::FallbackDownloadFailed { reason: reason@ },
            DriverUpdateStatus::FallbackSignatureFailed => StatusView::FallbackSignatureFailed,
            DriverUpdateStatus::FallbackAbiMismatch { server_abi, client_abi } =>
                StatusView::FallbackAbiMismatch {
                server_abi: *server_abi,
                client_abi: *client_abi,
            },
            DriverUpdateStatus::Disabled => StatusView::Disabled,
        }
    }
}

/// The view of a status is the same status, with the same texts and numbers.
pub proof fn law_status_view(text: String, server_abi: u32, client_abi: u32)
    ensures
        (DriverUpdateStatus::Updated { version: text })@ == (StatusView::Updated { version: text@ }),
        DriverUpdateStatus::FallbackServerUnsupported@ == StatusView::FallbackServerUnsupported,
        DriverUpdateStatus::FallbackUpToDate@ == StatusView::FallbackUpToDate,
        (DriverUpdateStatus::FallbackDownloadFailed { reason: text })@ == (
        StatusView::FallbackDownloadFailed { reason: text@ }),
        DriverUpdateStatus::FallbackSignatureFailed@ == StatusView::FallbackSignatureFailed,
        (DriverUpdateStatus::FallbackAbiMismatch { server_abi, client_abi })@ == (
        StatusView::FallbackAbiMismatch { server_abi, client_abi }),
        DriverUpdateStatus::Disabled@ == StatusView::Disabled,
{
}

} // verus!
