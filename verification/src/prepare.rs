//! Directory preparer: decide once, before any fetch, whether the destination
//! directory can be used, and whether it must first be created.

use vstd::prelude::*;

use crate::outcome::{ErrorKind, FsProbe};

verus! {

/// What the caller must do to the destination directory before scheduling.
#[derive(Clone, Copy, Debug, PartialEq, Eq, Structural)]
pub enum DirAction {
    /// The path does not exist yet: create it and any missing parents. The
    /// creation is idempotent, so a concurrent creator does no harm.
    CreateAll,
    /// The path already is a directory: nothing to do.
    Nothing,
}

/// The decision the preparer takes for each probe of the destination path.
pub open spec fn prepare_plan_spec(probe: FsProbe) -> Result<DirAction, ErrorKind> {
    match probe {
        FsProbe::Missing => Ok(DirAction::CreateAll),
        FsProbe::IsDir => Ok(DirAction::Nothing),
        FsProbe::IsFile => Err(ErrorKind::DestinationIsFile),
        FsProbe::PermissionDenied => Err(
            ErrorKind::MetadataUnavailable { permission_denied: true },
        ),
        FsProbe::OtherError => Err(ErrorKind::MetadataUnavailable { permission_denied: false }),
    }
}

/// Decides whether the destination directory is usable. A missing path is to
/// be created; an existing directory is accepted; an existing regular file is
/// refused; an unreadable path is refused with the permission-denied case
/// told apart. A failure here is fatal to the whole run: it is taken before
/// any fetch is scheduled, so a refused destination produces zero outcomes.
pub fn prepare_plan(probe: FsProbe) -> (r: Result<DirAction, ErrorKind>)
    ensures
        r == prepare_plan_spec(probe),
{
    match probe {
        FsProbe::Missing => Ok(DirAction::CreateAll),
        FsProbe::IsDir => Ok(DirAction::Nothing),
        FsProbe::IsFile => Err(ErrorKind::DestinationIsFile),
        FsProbe::PermissionDenied => Err(
            ErrorKind::MetadataUnavailable { permission_denied: true },
        ),
        FsProbe::OtherError => Err(ErrorKind::MetadataUnavailable { permission_denied: false }),
    }
}

/// Preparing a fresh path is idempotent: the first run sees a missing path
/// and creates the directory; any later run sees the directory standing and
/// succeeds again without touching it.
pub proof fn lemma_prepare_idempotent()
    ensures
        prepare_plan_spec(FsProbe::Missing) == Ok::<DirAction, ErrorKind>(DirAction::CreateAll),
        prepare_plan_spec(FsProbe::IsDir) == Ok::<DirAction, ErrorKind>(DirAction::Nothing),
{
}

} // verus!
