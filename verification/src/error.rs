//! The failure taxonomy of one synchronizer run. Every component returns a
//! typed error; the orchestrator aborts the remaining steps on the first one.

use vstd::prelude::*;

verus! {

/// Every way a run can fail. Errors raised by outside services are carried as
/// plain values: an HTTP status for a rejected record update, a message string
/// for transport, parsing, filesystem and authentication failures.
#[derive(Debug, Clone)]
pub enum Error {
    /// A hostname that cannot serve as a state-file name.
    FileNameError,
    /// A provider rejected the upload of new record data.
    UploadFailure,
    /// No application data directory could be resolved on this system.
    DataDirNotFound,
    /// A provider patch call returned this non-success HTTP status.
    UpdateFailure(u16),
    /// The target hostname is not a valid domain name.
    DomainParsingFailure,
    /// The provider holds no existing record for the target hostname.
    DomainRecordNotFound,
    /// A filesystem read or write failed; the payload is its description.
    Io(String),
    /// Bytes that were expected to be text were not valid UTF-8.
    Utf8(String),
    /// An HTTP request failed at the transport level.
    HttpRequestError(String),
    /// A response body could not be deserialized.
    Deserialize(String),
    /// Credentials could not be loaded or exchanged for a token.
    AuthError(String),
}

impl Error {
    /// True exactly when two errors are the same variant with the same payload.
    pub fn same_as(&self, other: &Error) -> (r: bool)
        ensures
            r == (self@ == other@),
    {
        match (self, other) {
            (Error::FileNameError, Error::FileNameError) => true,
            (Error::UploadFailure, Error::UploadFailure) => true,
            (Error::DataDirNotFound, Error::DataDirNotFound) => true,
            (Error::UpdateFailure(a), Error::UpdateFailure(b)) => *a == *b,
            (Error::DomainParsingFailure, Error::DomainParsingFailure) => true,
            (Error::DomainRecordNotFound, Error::DomainRecordNotFound) => true,
            (Error::Io(a), Error::Io(b)) => *a == *b,
            (Error::Utf8(a), Error::Utf8(b)) => *a == *b,
            (Error::HttpRequestError(a), Error::HttpRequestError(b)) => *a == *b,
            (Error::Deserialize(a), Error::Deserialize(b)) => *a == *b,
            (Error::AuthError(a), Error::AuthError(b)) => *a == *b,
            _ => false,
        }
    }
}

/// The value of an error for contracts: the variant together with its payload,
/// message payloads taken as character sequences.
pub enum ErrorView {
    FileNameError,
    UploadFailure,
    DataDirNotFound,
    UpdateFailure(u16),
    DomainParsingFailure,
    DomainRecordNotFound,
    Io(Seq<char>),
    Utf8(Seq<char>),
    HttpRequestError(Seq<char>),
    Deserialize(Seq<char>),
    AuthError(Seq<char>),
}

impl View for Error {
    type V = ErrorView;

    open spec fn view(&self) -> ErrorView {
        match self {
            Error::FileNameError => ErrorView::FileNameError,
            Error::UploadFailure => ErrorView::UploadFailure,
            Error::DataDirNotFound => ErrorView::DataDirNotFound,
            Error::UpdateFailure(s) => ErrorView::UpdateFailure(*s),
            Error::DomainParsingFailure => ErrorView::DomainParsingFailure,
            Error::DomainRecordNotFound => ErrorView::DomainRecordNotFound,
            Error::Io(m) => ErrorView::Io(m@),
            Error::Utf8(m) => ErrorView::Utf8(m@),
            Error::HttpRequestError(m) => ErrorView::HttpRequestError(m@),
            Error::Deserialize(m) => ErrorView::Deserialize(m@),
            Error::AuthError(m) => ErrorView::AuthError(m@),
        }
    }
}

pub type Result<T> = core::result::Result<T, Error>;

} // verus!
