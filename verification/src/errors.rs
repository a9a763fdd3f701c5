//! The failures a call can end in.

use vstd::prelude::*;

verus! {

/// What the transport reports when it could not do what was asked of it:
/// whether a connection could not be set up, whether a deadline passed, and
/// the transport's own words for the cause.
#[derive(Debug, PartialEq, Eq)]
pub struct TransportFailure {
    pub connect: bool,
    pub timeout: bool,
    pub description: String,
}

/// A transport failure with its text as a sequence of characters.
#[verifier::ext_equal]
pub struct CauseView {
    pub connect: bool,
    pub timeout: bool,
    pub description: Seq<char>,
}

impl View for TransportFailure {
    type V = CauseView;

    open spec fn view(&self) -> CauseView {
        CauseView {
            connect: self.connect,
            timeout: self.timeout,
            description: self.description@,
        }
    }
}

/// Every way in which building a client, resolving an endpoint or sending a
/// request can fail. None of them is retried or recovered from here.
#[derive(Debug, PartialEq, Eq)]
pub enum ApiClientError {
    /// The base URL, or an endpoint against it, does not parse.
    BaseUrlInvalid(url::ParseError),
    /// The transport could not be built.
    HttpClientBuildFailed(TransportFailure),
    /// Submitting the request failed for a reason other than the network.
    RequestFailed(TransportFailure),
    /// Submitting the request failed to connect or ran out of time.
    NetworkIssue(TransportFailure),
    /// The server answered with a status that is neither success nor
    /// redirection.
    HttpError { status: u16, body: String, url: Option<String> },
    /// The body of a successful response does not decode into the target.
    DeserializationFailed { source: TransportFailure, body_snippet: String },
    /// The client met a response it does not handle.
    InternalError(String),
}

/// An error with its texts as sequences of characters.
#[verifier::ext_equal]
pub enum ErrorView {
    BaseUrlInvalid(url::ParseError),
    HttpClientBuildFailed(CauseView),
    RequestFailed(CauseView),
    NetworkIssue(CauseView),
    HttpError { status: u16, body: Seq<char>, url: Option<Seq<char>> },
    DeserializationFailed { source: CauseView, body_snippet: Seq<char> },
    InternalError(Seq<char>),
}

impl View for ApiClientError {
    type V = ErrorView;

    open spec fn view(&self) -> ErrorView {
        match self {
            ApiClientError::BaseUrlInvalid(cause) => ErrorView::BaseUrlInvalid(*cause),
            ApiClientError::HttpClientBuildFailed(cause) => ErrorView::HttpClientBuildFailed(
                cause@,
            ),
            ApiClientError::RequestFailed(cause) => ErrorView::RequestFailed(cause@),
            ApiClientError::NetworkIssue(cause) => ErrorView::NetworkIssue(cause@),
            ApiClientError::HttpError { status, body, url } => ErrorView::HttpError {
                status: *status,
                body: body@,
                url: match url {
                    Some(text) => Some(text@),
                    None => None,
                },
            },
            ApiClientError::DeserializationFailed {
                source,
                body_snippet,
            } => ErrorView::DeserializationFailed { source: source@, body_snippet: body_snippet@ },
            ApiClientError::InternalError(text) => ErrorView::InternalError(text@),
        }
    }
}

} // verus!
