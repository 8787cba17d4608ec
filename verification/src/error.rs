//! Why a scan failed, and the message shown for it.

use vstd::prelude::*;
use vstd::string::*;

verus! {

/// A failed scan.
#[derive(Debug, Clone)]
pub enum ScanError {
    /// Nothing exists at the resolved path.
    DirectoryNotFound { requested: String, resolved: String },
    /// The resolved path exists and is not a directory.
    NotADirectory { requested: String, resolved: String },
    /// The directory could not be opened for listing.
    DirectoryReadFailed { reason: String },
    /// The audio root does not exist.
    RootNotFound,
    /// The audio root exists and could not be opened for listing.
    RootReadFailed { reason: String },
}

/// What a `ScanError` holds, as plain sequences.
pub ghost enum ScanErrorView {
    DirectoryNotFound { requested: Seq<char>, resolved: Seq<char> },
    NotADirectory { requested: Seq<char>, resolved: Seq<char> },
    DirectoryReadFailed { reason: Seq<char> },
    RootNotFound,
    RootReadFailed { reason: Seq<char> },
}

impl View for ScanError {
    type V = ScanErrorView;

    open spec fn view(&self) -> ScanErrorView {
        match self {
            ScanError::DirectoryNotFound { requested, resolved } => ScanErrorView::DirectoryNotFound {
                requested: requested@,
                resolved: resolved@,
            },
            ScanError::NotADirectory { requested, resolved } => ScanErrorView::NotADirectory {
                requested: requested@,
                resolved: resolved@,
            },
            ScanError::DirectoryReadFailed { reason } => ScanErrorView::DirectoryReadFailed {
                reason: reason@,
            },
            ScanError::RootNotFound => ScanErrorView::RootNotFound,
            ScanError::RootReadFailed { reason } => ScanErrorView::RootReadFailed {
                reason: reason@,
            },
        }
    }
}

/// A message that names the request and, behind it, the path that was tried.
pub open spec fn located_text(lead: Seq<char>, requested: Seq<char>, resolved: Seq<char>) -> Seq<
    char,
> {
    lead + requested + " (resolved to: "@ + resolved + ")"@
}

impl ScanErrorView {
    /// The text shown for the error.
    pub open spec fn message_text(self) -> Seq<char> {
        match self {
            ScanErrorView::DirectoryNotFound { requested, resolved } => located_text(
                "Directory does not exist: "@,
                requested,
                resolved,
            ),
            ScanErrorView::NotADirectory { requested, resolved } => located_text(
                "Path is not a directory: "@,
                requested,
                resolved,
            ),
            ScanErrorView::DirectoryReadFailed { reason } => "Failed to read directory: "@ + reason,
            ScanErrorView::RootNotFound => "public/audio directory does not exist"@,
            ScanErrorView::RootReadFailed { reason } => "Failed to read audio dir: "@ + reason,
        }
    }
}

fn located(lead: &str, requested: &str, resolved: &str) -> (r: String)
    ensures
        r@ == located_text(lead@, requested@, resolved@),
{
    let mut out = String::from_str(lead);
    out.append(requested);
    out.append(" (resolved to: ");
    out.append(resolved);
    out.append(")");
    out
}

impl ScanError {
    /// The human-readable message for the error.
    pub fn message(&self) -> (r: String)
        ensures
            r@ == self@.message_text(),
    {
        match self {
            ScanError::DirectoryNotFound { requested, resolved } => located(
                "Directory does not exist: ",
                requested.as_str(),
                resolved.as_str(),
            ),
            ScanError::NotADirectory { requested, resolved } => located(
                "Path is not a directory: ",
                requested.as_str(),
                resolved.as_str(),
            ),
            ScanError::DirectoryReadFailed { reason } => {
                let mut out = String::from_str("Failed to read directory: ");
                out.append(reason.as_str());
                out
            },
            ScanError::RootNotFound => String::from_str("public/audio directory does not exist"),
            ScanError::RootReadFailed { reason } => {
                let mut out = String::from_str("Failed to read audio dir: ");
                out.append(reason.as_str());
                out
            },
        }
    }
}

} // verus!
