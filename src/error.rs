use vstd::prelude::*;
use crate::envelope::Failure;

verus! {

/// Why a request could not be served from the upstream. Each variant holds
/// what an operator needs to see in the log; none of it reaches the client.
#[derive(Debug)]
pub enum Error {
    /// The store binding is absent from the hosting environment.
    Worker(String),
    /// The upstream could not be reached (DNS, refused connection, timeout).
    Reqwest(String),
    /// The store could not be read.
    KvError(String),
    /// The store holds no value under this key.
    KvKeyNotFound(String),
    /// The upstream answered with this non-success status.
    UpstreamApi(u16, String),
    /// The upstream body is not an envelope.
    MalformedBody(String),
}

/// Mathematical view of an [`Error`]: its texts as sequences of characters.
pub ghost enum ErrorView {
    Worker(Seq<char>),
    Reqwest(Seq<char>),
    KvError(Seq<char>),
    KvKeyNotFound(Seq<char>),
    UpstreamApi(u16, Seq<char>),
    MalformedBody(Seq<char>),
}

impl View for Error {
    type V = ErrorView;

    open spec fn view(&self) -> ErrorView {
        match self {
            Error::Worker(s) => ErrorView::Worker(s@),
            Error::Reqwest(s) => ErrorView::Reqwest(s@),
            Error::KvError(s) => ErrorView::KvError(s@),
            Error::KvKeyNotFound(s) => ErrorView::KvKeyNotFound(s@),
            Error::UpstreamApi(c, s) => ErrorView::UpstreamApi(*c, s@),
            Error::MalformedBody(s) => ErrorView::MalformedBody(s@),
        }
    }
}

/// Which fixed envelope reports an error: configuration problems are
/// internal errors, transport failures are access failures, a non-success
/// status is fatal, and an unusable body is a parse error.
pub open spec fn failure_of(e: ErrorView) -> Failure {
    match e {
        ErrorView::Worker(_) => Failure::Internal,
        ErrorView::KvError(_) => Failure::Internal,
        ErrorView::KvKeyNotFound(_) => Failure::Internal,
        ErrorView::Reqwest(_) => Failure::AccessFail,
        ErrorView::UpstreamApi(_, _) => Failure::Fatal,
        ErrorView::MalformedBody(_) => Failure::ParseError,
    }
}

impl Error {
    /// The fixed envelope that reports this error to the client.
    pub fn failure(&self) -> (r: Failure)
        ensures
            r == failure_of(self@),
    {
        match self {
            Error::Worker(_) => Failure::Internal,
            Error::KvError(_) => Failure::Internal,
            Error::KvKeyNotFound(_) => Failure::Internal,
            Error::Reqwest(_) => Failure::AccessFail,
            Error::UpstreamApi(_, _) => Failure::Fatal,
            Error::MalformedBody(_) => Failure::ParseError,
        }
    }
}

} // verus!
