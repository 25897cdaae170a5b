use crate::error::{CopyError, CopyErrorView, InvalidReason};
use vstd::prelude::*;

verus! {

/// What a look at the destination path found.
#[derive(Clone, Copy, Debug, PartialEq, Eq, Structural)]
pub enum Probe {
    /// The lookup failed: the path is missing or out of reach.
    Unavailable,
    /// The path exists and is something other than a directory.
    NotDirectory,
    /// The path is an existing directory.
    Directory,
}

/// How the target of each source is found.
#[derive(Clone, Debug, PartialEq, Eq)]
pub enum DestinationMode {
    /// The destination is the name of the one output file.
    SingleFileTarget,
    /// The destination is a directory that takes each source under the
    /// source's own file name.
    DirectoryTarget(String),
}

/// A `DestinationMode` with the contents of its string.
pub enum DestinationModeView {
    SingleFileTarget,
    DirectoryTarget(Seq<char>),
}

impl View for DestinationMode {
    type V = DestinationModeView;

    open spec fn view(&self) -> DestinationModeView {
        match *self {
            DestinationMode::SingleFileTarget => DestinationModeView::SingleFileTarget,
            DestinationMode::DirectoryTarget(dir) => DestinationModeView::DirectoryTarget(dir@),
        }
    }
}

/// Whether a run with this many sources has to look at its destination:
/// only several sources ask for a directory.
pub open spec fn needs_directory_spec(source_count: nat) -> bool {
    source_count > 1
}

/// The mode of a run with `source_count` sources, given what a look at
/// `destination` found. With at most one source the look does not count.
pub open spec fn resolve_spec(source_count: nat, destination: Seq<char>, probe: Probe) -> Result<
    DestinationModeView,
    CopyErrorView,
> {
    if !needs_directory_spec(source_count) {
        Ok(DestinationModeView::SingleFileTarget)
    } else {
        match probe {
            Probe::Directory => Ok(DestinationModeView::DirectoryTarget(destination)),
            Probe::NotDirectory => Err(
                CopyErrorView::InvalidDestination {
                    path: destination,
                    reason: InvalidReason::NotDirectory,
                },
            ),
            Probe::Unavailable => Err(
                CopyErrorView::InvalidDestination {
                    path: destination,
                    reason: InvalidReason::Unavailable,
                },
            ),
        }
    }
}

/// The contents of a resolved mode or of the error in its place.
pub open spec fn resolved_view(resolved: Result<DestinationMode, CopyError>) -> Result<
    DestinationModeView,
    CopyErrorView,
> {
    match resolved {
        Ok(mode) => Ok(mode@),
        Err(error) => Err(error@),
    }
}

/// Whether a run with this many sources has to look at its destination
/// before it copies anything.
pub fn needs_directory(source_count: usize) -> (needed: bool)
    ensures
        needed == needs_directory_spec(source_count as nat),
{
    source_count > 1
}

/// Decides how targets are found. One source goes to the destination as a
/// file name, whatever is there. Several sources need an existing
/// directory: anything else is an invalid destination.
pub fn resolve(source_count: usize, destination: &str, probe: Probe) -> (resolved: Result<
    DestinationMode,
    CopyError,
>)
    ensures
        resolved_view(resolved) == resolve_spec(source_count as nat, destination@, probe),
{
    if !needs_directory(source_count) {
        Ok(DestinationMode::SingleFileTarget)
    } else {
        match probe {
            Probe::Directory => Ok(DestinationMode::DirectoryTarget(String::from_str(destination))),
            Probe::NotDirectory => Err(
                CopyError::InvalidDestination {
                    path: String::from_str(destination),
                    reason: InvalidReason::NotDirectory,
                },
            ),
            Probe::Unavailable => Err(
                CopyError::InvalidDestination {
                    path: String::from_str(destination),
                    reason: InvalidReason::Unavailable,
                },
            ),
        }
    }
}

} // verus!
