use vstd::prelude::*;

verus! {

/// The failure kinds of the pipeline. Every component failure surfaces as
/// exactly one of these; nothing is silently swallowed.
#[derive(Clone, Copy, Debug, PartialEq, Eq, Structural)]
pub enum ParserError {
    /// The source identifier was empty.
    InvalidInput,
    /// The transport failed (DNS, connection, timeout).
    NetworkError,
    /// The response body is not a well-formed feed document.
    FeedParseError,
    /// An entry's link has no non-empty path segment to serve as a slug.
    MalformedLink,
    /// An entry's publication date is not a valid RFC 2822 date.
    InvalidDate,
    /// The target directory exists and overwriting was declined or not requested.
    DirectoryExists,
    /// The existing directory tree could not be removed.
    CantDelete,
    /// A file could not be created or written.
    WriteFailed,
}

impl ParserError {
    /// A one-line, human-readable message naming the failure kind.
    pub fn message(&self) -> (r: &'static str)
        ensures
            *self is InvalidInput ==> r@ == "no source identifier provided"@,
            *self is NetworkError ==> r@ == "unable to fetch the feed"@,
            *self is FeedParseError ==> r@ == "unable to parse the feed"@,
            *self is MalformedLink ==> r@ == "unable to split url to find the slug"@,
            *self is InvalidDate ==> r@ == "unable to parse the publication date"@,
            *self is DirectoryExists ==> r@ == "Overwrite not allowed"@,
            *self is CantDelete ==> r@ == "Unable to delete directory"@,
            *self is WriteFailed ==> r@ == "Unable to save all items"@,
    {
        match self {
            ParserError::InvalidInput => "no source identifier provided",
            ParserError::NetworkError => "unable to fetch the feed",
            ParserError::FeedParseError => "unable to parse the feed",
            ParserError::MalformedLink => "unable to split url to find the slug",
            ParserError::InvalidDate => "unable to parse the publication date",
            ParserError::DirectoryExists => "Overwrite not allowed",
            ParserError::CantDelete => "Unable to delete directory",
            ParserError::WriteFailed => "Unable to save all items",
        }
    }
}

/// The terminal report of a successful save: how many files were written.
#[derive(Clone, Copy, Debug, PartialEq, Eq, Structural)]
pub enum SaveStatus {
    Success { files_written: usize },
}

impl SaveStatus {
    /// A one-line, human-readable completion message.
    pub fn message(&self) -> (r: &'static str)
        ensures
            r@ == "Successfully saved posts"@,
    {
        "Successfully saved posts"
    }

    /// The number of files written.
    pub fn count(&self) -> (r: usize)
        ensures
            *self matches SaveStatus::Success { files_written } && r == files_written,
    {
        match self {
            SaveStatus::Success { files_written } => *files_written,
        }
    }
}

} // verus!
