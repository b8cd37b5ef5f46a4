//! The closed error taxonomy of the pipeline and the per-item outcome.

use vstd::prelude::*;

verus! {

/// Everything that can go wrong for one item or for the destination
/// directory. Every failure a run reports carries one of these causes.
#[derive(Clone, Copy, Debug, PartialEq, Eq, Structural)]
pub enum ErrorKind {
    /// The item's source URL does not parse as an absolute URL.
    UrlInvalid,
    /// The transfer broke off: the connection failed or the stream ended
    /// abnormally.
    NetworkFailure,
    /// Creating, writing or renaming a file failed, or its modification time
    /// could not be set.
    IoFailure,
    /// Metadata for a path could not be retrieved, with the
    /// permission-denied case told apart from the rest.
    MetadataUnavailable { permission_denied: bool },
    /// The destination directory path exists but is a regular file.
    DestinationIsFile,
    /// An item's final path exists but is a directory.
    DestinationIsDirectory,
}

/// The terminal classification of one item's fetch attempt, produced exactly
/// once per item.
#[derive(Clone, Copy, Debug, PartialEq, Eq, Structural)]
pub enum Outcome {
    /// The final path already held a regular file; nothing was fetched.
    Skipped,
    /// The item was fully written and renamed into place.
    Succeeded,
    /// The fetch failed with the recorded cause.
    Failed(ErrorKind),
}

/// What a metadata probe of a path reports, reduced to the cases the
/// pipeline's decisions depend on.
#[derive(Clone, Copy, Debug, PartialEq, Eq, Structural)]
pub enum FsProbe {
    /// The path does not exist.
    Missing,
    /// The path exists and is a regular file.
    IsFile,
    /// The path exists and is a directory.
    IsDir,
    /// Metadata could not be retrieved: permission was denied.
    PermissionDenied,
    /// Metadata could not be retrieved for some other reason.
    OtherError,
}

impl ErrorKind {
    /// A short human-readable account of the cause.
    pub open spec fn describe_spec(self) -> Seq<char> {
        match self {
            ErrorKind::UrlInvalid => "invalid URL"@,
            ErrorKind::NetworkFailure => "network failure"@,
            ErrorKind::IoFailure => "I/O failure"@,
            ErrorKind::MetadataUnavailable { permission_denied } => {
                if permission_denied {
                    "permission denied when retrieving file metadata"@
                } else {
                    "unable to retrieve file metadata"@
                }
            },
            ErrorKind::DestinationIsFile => "destination is a file"@,
            ErrorKind::DestinationIsDirectory => "found existing directory"@,
        }
    }

    /// A short human-readable account of the cause.
    pub fn describe(&self) -> (r: String)
        ensures
            r@ == self.describe_spec(),
    {
        match self {
            ErrorKind::UrlInvalid => "invalid URL".to_owned(),
            ErrorKind::NetworkFailure => "network failure".to_owned(),
            ErrorKind::IoFailure => "I/O failure".to_owned(),
            ErrorKind::MetadataUnavailable { permission_denied } => {
                if *permission_denied {
                    "permission denied when retrieving file metadata".to_owned()
                } else {
                    "unable to retrieve file metadata".to_owned()
                }
            },
            ErrorKind::DestinationIsFile => "destination is a file".to_owned(),
            ErrorKind::DestinationIsDirectory => "found existing directory".to_owned(),
        }
    }
}

} // verus!
