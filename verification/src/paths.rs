use crate::destination::{DestinationMode, DestinationModeView};
use crate::error::{CopyError, CopyErrorView};
use vstd::prelude::*;

verus! {

/// The contents of an optional string.
pub open spec fn opt_text(item: Option<String>) -> Option<Seq<char>> {
    match item {
        Some(s) => Some(s@),
        None => None,
    }
}

/// The final component of a path as `std::path::Path::file_name` gives it,
/// by the path grammar of the platform the library is built for: `None`
/// where the path has no such component.
pub uninterp spec fn path_file_name(path: Seq<char>) -> Option<Seq<char>>;

/// The path that `std::path::Path::join` makes of a directory and what is
/// put below it, by the path grammar of the platform the library is built for.
pub uninterp spec fn path_join(dir: Seq<char>, entry: Seq<char>) -> Seq<char>;

/// Calls `std::path::Path::file_name`. The component it returns is a piece
/// of `path`, so it is text again; which piece is a function of the
/// characters of `path` alone and is not spelled out here.
#[verifier::external_body]
pub(crate) fn file_name(path: &str) -> (name: Option<String>)
    ensures
        opt_text(name) == path_file_name(path@),
{
    match std::path::Path::new(path).file_name() {
        Some(name) => Some(name.to_string_lossy().into_owned()),
        None => None,
    }
}

/// Calls `std::path::Path::join`. The result is made of the characters of
/// the two arguments and the platform's separator, so it is text again;
/// how they are put together is a function of the arguments alone and is
/// not spelled out here.
#[verifier::external_body]
pub(crate) fn join(dir: &str, entry: &str) -> (path: String)
    ensures
        path@ == path_join(dir@, entry@),
{
    std::path::Path::new(dir).join(entry).to_string_lossy().into_owned()
}

/// Where a source goes once the file name of its path is known: to the
/// destination itself, or into the directory under that name. A source
/// without a file name cannot go into a directory.
pub open spec fn placed_spec(
    mode: DestinationModeView,
    destination: Seq<char>,
    name: Option<Seq<char>>,
) -> Result<Seq<char>, CopyErrorView> {
    match mode {
        DestinationModeView::SingleFileTarget => Ok(destination),
        DestinationModeView::DirectoryTarget(dir) => match name {
            Some(name) => Ok(path_join(dir, name)),
            None => Err(CopyErrorView::MalformedSourcePath),
        },
    }
}

/// Where the copy of `source` is written.
pub open spec fn target_spec(
    mode: DestinationModeView,
    source: Seq<char>,
    destination: Seq<char>,
) -> Result<Seq<char>, CopyErrorView> {
    placed_spec(mode, destination, path_file_name(source))
}

/// The contents of a target path or of the error in its place.
pub open spec fn target_view(target: Result<String, CopyError>) -> Result<
    Seq<char>,
    CopyErrorView,
> {
    match target {
        Ok(path) => Ok(path@),
        Err(error) => Err(error@),
    }
}

/// Finds the target of a source whose file name is `name`, or `None` if
/// its path has none. The name counts only where the mode is a directory.
pub fn place_in(mode: &DestinationMode, destination: &str, name: Option<String>) -> (target: Result<
    String,
    CopyError,
>)
    ensures
        target_view(target) == placed_spec(mode@, destination@, opt_text(name)),
{
    match mode {
        DestinationMode::SingleFileTarget => Ok(String::from_str(destination)),
        DestinationMode::DirectoryTarget(dir) => match name {
            Some(name) => Ok(join(dir.as_str(), name.as_str())),
            None => Err(CopyError::MalformedSourcePath),
        },
    }
}

/// Finds where the copy of `source` is written: the destination unchanged
/// for a single file target, else the directory's entry named like the
/// source. A source path without a file name is malformed.
pub fn target_path(mode: &DestinationMode, source: &str, destination: &str) -> (target: Result<
    String,
    CopyError,
>)
    ensures
        target_view(target) == target_spec(mode@, source@, destination@),
{
    match mode {
        DestinationMode::SingleFileTarget => place_in(mode, destination, None),
        DestinationMode::DirectoryTarget(_) => place_in(mode, destination, file_name(source)),
    }
}

} // verus!
