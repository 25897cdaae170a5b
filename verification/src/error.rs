use vstd::prelude::*;

verus! {

/// Why a destination cannot take several sources.
#[derive(Clone, Copy, Debug, PartialEq, Eq, Structural)]
pub enum InvalidReason {
    /// Nothing could be learned about the path: it is missing or out of reach.
    Unavailable,
    /// The path exists and is something other than a directory.
    NotDirectory,
}

/// Why a run stopped.
#[derive(Clone, Debug, PartialEq, Eq)]
pub enum CopyError {
    /// Several sources were given and the destination is no directory.
    InvalidDestination { path: String, reason: InvalidReason },
    /// A source path has no file name to store the copy under.
    MalformedSourcePath,
    /// A source could not be opened for reading.
    SourceUnreadable { path: String, cause: String },
    /// A target could not be created or opened for writing.
    DestinationUnwritable { path: String, cause: String },
    /// Reading or writing failed while the bytes were transferred.
    CopyIoError { cause: String },
}

/// A `CopyError` with the contents of its strings.
pub enum CopyErrorView {
    InvalidDestination { path: Seq<char>, reason: InvalidReason },
    MalformedSourcePath,
    SourceUnreadable { path: Seq<char>, cause: Seq<char> },
    DestinationUnwritable { path: Seq<char>, cause: Seq<char> },
    CopyIoError { cause: Seq<char> },
}

impl View for CopyError {
    type V = CopyErrorView;

    open spec fn view(&self) -> CopyErrorView {
        match *self {
            CopyError::InvalidDestination { path, reason } => CopyErrorView::InvalidDestination {
                path: path@,
                reason,
            },
            CopyError::MalformedSourcePath => CopyErrorView::MalformedSourcePath,
            CopyError::SourceUnreadable { path, cause } => CopyErrorView::SourceUnreadable {
                path: path@,
                cause: cause@,
            },
            CopyError::DestinationUnwritable {
                path,
                cause,
            } => CopyErrorView::DestinationUnwritable { path: path@, cause: cause@ },
            CopyError::CopyIoError { cause } => CopyErrorView::CopyIoError { cause: cause@ },
        }
    }
}

/// The message for a destination that is no directory.
pub open spec fn not_a_directory_text(path: Seq<char>) -> Seq<char> {
    "specified destination '"@ + path + "' is not a directory"@
}

/// The one line that tells a person why the run stopped. A failure of the
/// file system is told in the words it came with.
pub open spec fn message_text(error: CopyErrorView) -> Seq<char> {
    match error {
        CopyErrorView::InvalidDestination { path, reason } => not_a_directory_text(path),
        CopyErrorView::MalformedSourcePath => "source path has no file name"@,
        CopyErrorView::SourceUnreadable { path, cause } => cause,
        CopyErrorView::DestinationUnwritable { path, cause } => cause,
        CopyErrorView::CopyIoError { cause } => cause,
    }
}

impl CopyError {
    /// The one line that tells a person why the run stopped.
    pub fn message(&self) -> (text: String)
        ensures
            text@ == message_text(self@),
    {
        match self {
            CopyError::InvalidDestination { path, reason } => {
                let mut text = String::from_str("specified destination '");
                text.append(path.as_str());
                text.append("' is not a directory");
                text
            },
            CopyError::MalformedSourcePath => String::from_str("source path has no file name"),
            CopyError::SourceUnreadable { path, cause } => cause.clone(),
            CopyError::DestinationUnwritable { path, cause } => cause.clone(),
            CopyError::CopyIoError { cause } => cause.clone(),
        }
    }
}

} // verus!
