//! The ways in which an upload or a download can fail.

use vstd::prelude::*;
use vstd::string::*;

verus! {

/// Text sent when an upload carries no file.
pub const NO_FILE_MESSAGE: &'static str = "No file uploaded";

/// Text sent when an uploaded file is larger than the store accepts.
pub const SIZE_LIMIT_MESSAGE: &'static str = "File size exceeds the maximum limit of 1000000 bytes";

/// A failed upload or download.
#[derive(Debug, PartialEq, Eq)]
pub enum Error {
    /// The upload held no field at all.
    NoFileUploaded,
    /// The uploaded file is larger than the store accepts.
    SizeLimitExceeded,
    /// The multipart stream could not be read; the text says why.
    MultipartParse(String),
    /// The storage directory could not be prepared or written; the text says why.
    Storage(String),
    /// No bytes are stored under the requested identifier; the text is what
    /// the failed read reported.
    NotFound(String),
}

/// An [`Error`] with its texts as character sequences.
pub enum ErrorView {
    NoFileUploaded,
    SizeLimitExceeded,
    MultipartParse(Seq<char>),
    Storage(Seq<char>),
    NotFound(Seq<char>),
}

impl View for Error {
    type V = ErrorView;

    open spec fn view(&self) -> ErrorView {
        match self {
            Error::NoFileUploaded => ErrorView::NoFileUploaded,
            Error::SizeLimitExceeded => ErrorView::SizeLimitExceeded,
            Error::MultipartParse(cause) => ErrorView::MultipartParse(cause@),
            Error::Storage(cause) => ErrorView::Storage(cause@),
            Error::NotFound(cause) => ErrorView::NotFound(cause@),
        }
    }
}

impl ErrorView {
    /// The text that describes the failure to the client.
    pub open spec fn message(self) -> Seq<char> {
        match self {
            ErrorView::NoFileUploaded => NO_FILE_MESSAGE@,
            ErrorView::SizeLimitExceeded => SIZE_LIMIT_MESSAGE@,
            ErrorView::MultipartParse(cause) => cause,
            ErrorView::Storage(cause) => cause,
            ErrorView::NotFound(cause) => cause,
        }
    }
}

impl Error {
    /// The text that describes the failure to the client: a fixed sentence for
    /// a missing or oversized file, the reported cause otherwise.
    pub fn message(&self) -> (text: String)
        ensures
            text@ == self@.message(),
    {
        match self {
            Error::NoFileUploaded => String::from_str(NO_FILE_MESSAGE),
            Error::SizeLimitExceeded => String::from_str(SIZE_LIMIT_MESSAGE),
            Error::MultipartParse(cause) => cause.clone(),
            Error::Storage(cause) => cause.clone(),
            Error::NotFound(cause) => cause.clone(),
        }
    }
}

} // verus!
