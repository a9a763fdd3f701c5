//! The client: a base URL, a transport, and what it makes of endpoints,
//! descriptors and the reports of the transport.

use crate::dispatch::{
    decoded, next, redirection_message, redirection_report, step_view, Action, RequestState,
    TransportEvent,
};
use crate::errors::{ApiClientError, CauseView, ErrorView, TransportFailure};
use crate::headers::{fit_together, header_entries, headers_fit, merged, no_entries};
use crate::request::{text_pairs, DescriptorView, RequestDescriptor};
use crate::resolve::{is_parsed_url, join_url, parse_url, text_of, url_join, url_parse};
use crate::status::{classify_status, is_redirection, write_status, StatusClass};
use crate::transport::{build_transport, share_transport};
use reqwest::header::HeaderMap;
use vstd::prelude::*;

verus! {

/// The total time, in seconds, that the transport gives one request.
pub const REQUEST_TIMEOUT_SECS: u64 = 30;

/// A client for one API: the base URL that endpoints are resolved against,
/// and the transport that requests go out on. It does not change once built.
pub struct ApiClient {
    base_url: String,
    http_client: reqwest::Client,
}

/// The outcome of resolving an endpoint, with its texts as sequences of
/// characters.
pub open spec fn resolution_view(r: Result<String, ApiClientError>) -> Result<Seq<char>, ErrorView> {
    match r {
        Ok(url) => Ok(url@),
        Err(e) => Err(e@),
    }
}

/// What the outcome of a join is handed on as: the joined URL, or the error
/// for a URL that does not parse.
pub open spec fn resolution_of(joined: Result<Seq<char>, url::ParseError>) -> Result<
    Seq<char>,
    ErrorView,
> {
    match joined {
        Ok(url) => Ok(url),
        Err(cause) => Err(ErrorView::BaseUrlInvalid(cause)),
    }
}

/// The outcome of decoding, with its texts as sequences of characters.
pub open spec fn decoding_view<T>(r: Result<T, TransportFailure>) -> Result<T, CauseView> {
    match r {
        Ok(value) => Ok(value),
        Err(cause) => Err(cause@),
    }
}

/// The result of a call, with its texts as sequences of characters.
pub open spec fn result_view<T>(r: Result<T, ApiClientError>) -> Result<T, ErrorView> {
    match r {
        Ok(value) => Ok(value),
        Err(e) => Err(e@),
    }
}

/// What merging headers into a descriptor gives where it can be done: the
/// descriptor with the headers merged in if the two fit together, else the
/// descriptor as it was, handed back as the error.
pub open spec fn merge_attempt(
    builder: RequestDescriptor,
    supplied: Map<Seq<char>, Seq<Seq<u8>>>,
    r: Result<RequestDescriptor, RequestDescriptor>,
) -> bool {
    if fit_together(builder@.headers, supplied) {
        r matches Ok(descriptor) && descriptor@ == (DescriptorView {
            headers: merged(builder@.headers, supplied),
            ..builder@
        })
    } else {
        r == Err::<RequestDescriptor, RequestDescriptor>(builder)
    }
}

impl ApiClient {
    /// The base URL, in the form in which the `url` crate writes a parsed URL.
    pub closed spec fn base(&self) -> Seq<char> {
        self.base_url@
    }

    /// The transport that the client was built with.
    pub closed spec fn engine(&self) -> reqwest::Client {
        self.http_client
    }

    /// Whether the base URL is a parsed one. It is for every client that
    /// `new` and `with_transport` make, and a client never changes.
    pub open spec fn is_validated(&self) -> bool {
        is_parsed_url(self.base())
    }

    /// What a transport and the outcome of parsing a base URL assemble to:
    /// the parse error if there is one, else a client on the two.
    pub open spec fn assembles(
        engine: reqwest::Client,
        parsed: Result<Seq<char>, url::ParseError>,
        r: Result<ApiClient, ApiClientError>,
    ) -> bool {
        match parsed {
            Err(cause) => r matches Err(e) && e@ == ErrorView::BaseUrlInvalid(cause),
            Ok(text) => r matches Ok(client) && client.base() == text && client.engine() == engine,
        }
    }

    /// What construction must hand back for a transport outcome and the text
    /// of a base URL: the transport's failure if it has one, else what the
    /// transport and the parsed text assemble to.
    pub open spec fn constructs(
        transport: Result<reqwest::Client, TransportFailure>,
        base_url: Seq<char>,
        r: Result<ApiClient, ApiClientError>,
    ) -> bool {
        match transport {
            Err(cause) => r matches Err(e) && e@ == ErrorView::HttpClientBuildFailed(cause@),
            Ok(engine) => ApiClient::assembles(engine, url_parse(base_url), r),
        }
    }

    /// What resolving `endpoint` against the base must give: the joined URL,
    /// or the error that joining stops with.
    pub open spec fn resolved(&self, endpoint: Seq<char>) -> Result<Seq<char>, ErrorView> {
        resolution_of(url_join(self.base(), endpoint))
    }

    /// Builds a transport with a total request timeout of thirty seconds and
    /// a client on it. The transport decides whether it can be built; with a
    /// transport, the client exists exactly if `base_url` parses.
    pub fn new(base_url: &str) -> (r: Result<ApiClient, ApiClientError>)
        ensures
            url_parse(base_url@) is Err ==> r is Err,
            r matches Ok(client) ==> url_parse(base_url@) matches Ok(text) && client.base() == text,
            r matches Ok(client) ==> client.is_validated(),
            r matches Err(e) ==> e@ is HttpClientBuildFailed || (url_parse(base_url@) matches Err(
                cause,
            ) && e@ == ErrorView::BaseUrlInvalid(cause)),
    {
        let transport = build_transport(REQUEST_TIMEOUT_SECS);
        ApiClient::with_transport(transport, base_url)
    }

    /// Makes a client from the outcome of building a transport and the text
    /// of a base URL. A failed transport is reported first; then the text is
    /// parsed, once, and kept in its parsed form.
    pub fn with_transport(
        transport: Result<reqwest::Client, TransportFailure>,
        base_url: &str,
    ) -> (r: Result<ApiClient, ApiClientError>)
        ensures
            ApiClient::constructs(transport, base_url@, r),
            r matches Ok(client) ==> client.is_validated(),
    {
        match transport {
            Ok(engine) => ApiClient::assemble(engine, parse_url(base_url)),
            Err(cause) => Err(ApiClientError::HttpClientBuildFailed(cause)),
        }
    }

    /// Makes a client from a transport and the outcome of parsing a base
    /// URL. The base is taken as it is given.
    pub fn assemble(engine: reqwest::Client, parsed: Result<String, url::ParseError>) -> (r: Result<
        ApiClient,
        ApiClientError,
    >)
        ensures
            ApiClient::assembles(engine, text_of(parsed), r),
    {
        match parsed {
            Ok(base_url) => Ok(ApiClient { base_url, http_client: engine }),
            Err(cause) => Err(ApiClientError::BaseUrlInvalid(cause)),
        }
    }

    /// The base URL.
    pub fn base_url(&self) -> (r: &str)
        ensures
            r@ == self.base(),
    {
        self.base_url.as_str()
    }

    /// The transport.
    pub fn transport(&self) -> (r: &reqwest::Client)
        ensures
            *r == self.engine(),
    {
        &self.http_client
    }

    /// Resolves `endpoint` against the base URL: a relative reference is
    /// joined to the base, an absolute one replaces it.
    pub fn build_url(&self, endpoint: &str) -> (r: Result<String, ApiClientError>)
        ensures
            resolution_view(r) == self.resolved(endpoint@),
    {
        ApiClient::resolution(join_url(self.base_url.as_str(), endpoint))
    }

    /// Hands on the outcome of a join: the joined URL as it is, an error as
    /// the error for a URL that does not parse.
    pub fn resolution(joined: Result<String, url::ParseError>) -> (r: Result<
        String,
        ApiClientError,
    >)
        ensures
            resolution_view(r) == resolution_of(text_of(joined)),
    {
        match joined {
            Ok(url) => Ok(url),
            Err(cause) => Err(ApiClientError::BaseUrlInvalid(cause)),
        }
    }

    /// Resolves `endpoint` and starts the descriptor of a GET request to it,
    /// without query parameters or headers.
    pub fn get(&self, endpoint: &str) -> (r: Result<RequestDescriptor, ApiClientError>)
        ensures
            match self.resolved(endpoint@) {
                Ok(url) => r matches Ok(descriptor) && descriptor@ == (DescriptorView {
                    url,
                    query: Seq::empty(),
                    headers: no_entries(),
                }),
                Err(cause) => r matches Err(e) && e@ == cause,
            },
    {
        match self.build_url(endpoint) {
            Ok(url) => Ok(RequestDescriptor::new(url)),
            Err(e) => Err(e),
        }
    }

    /// Appends `params`, if there are any, to the query parameters of the
    /// descriptor: every pair, in the order supplied, behind those already
    /// there. Without `params` the descriptor comes back as it is.
    pub fn add_query_params(
        &self,
        builder: RequestDescriptor,
        params: Option<&Vec<(String, String)>>,
    ) -> (r: RequestDescriptor)
        ensures
            match params {
                Some(pairs) => r@ == (DescriptorView {
                    query: builder@.query + text_pairs(pairs@),
                    ..builder@
                }),
                None => r == builder,
            },
    {
        match params {
            Some(query_params) => builder.with_query(query_params),
            None => builder,
        }
    }

    /// Merges `headers`, if there are any, into the headers of the
    /// descriptor: a name that `headers` holds gets the values that `headers`
    /// gives it, in place of any it had. Without `headers` the descriptor
    /// comes back as it is. The two must fit together, which `headers_fit`
    /// tells; `try_add_headers` asks for nothing.
    pub fn add_headers(
        &self,
        builder: RequestDescriptor,
        headers: Option<&HeaderMap>,
    ) -> (r: RequestDescriptor)
        requires
            headers matches Some(supplied) ==> fit_together(
                builder@.headers,
                header_entries(*supplied),
            ),
        ensures
            match headers {
                Some(supplied) => r@ == (DescriptorView {
                    headers: merged(builder@.headers, header_entries(*supplied)),
                    ..builder@
                }),
                None => r == builder,
            },
    {
        match headers {
            Some(custom_headers) => builder.with_headers(custom_headers),
            None => builder,
        }
    }

    /// Merges `headers` into the descriptor as `add_headers` does, where the
    /// two fit together; where they do not, the descriptor comes back
    /// untouched, as the error.
    pub fn try_add_headers(
        &self,
        builder: RequestDescriptor,
        headers: Option<&HeaderMap>,
    ) -> (r: Result<RequestDescriptor, RequestDescriptor>)
        ensures
            match headers {
                Some(supplied) => merge_attempt(builder, header_entries(*supplied), r),
                None => r matches Ok(descriptor) && descriptor == builder,
            },
    {
        match headers {
            Some(custom_headers) => {
                if headers_fit(builder.headers(), custom_headers) {
                    Ok(self.add_headers(builder, headers))
                } else {
                    Err(builder)
                }
            },
            None => Ok(builder),
        }
    }

    /// Takes one step of a call: from where the call stands and what the
    /// transport reports to where it stands next and what is to be done. A
    /// call starts in `Built` with `Begin`, and it is over when the action is
    /// `Return`. An event that cannot happen in `state` is answered by `None`.
    pub fn send_request<T>(&self, state: RequestState, event: TransportEvent<T>) -> (r: Option<
        (RequestState, Action<T>),
    >)
        ensures
            step_view(r) == next(state, event@),
    {
        match (state, event) {
            (RequestState::Built, TransportEvent::Begin(descriptor)) => Some(
                (RequestState::Dispatched, Action::Submit(descriptor)),
            ),
            (RequestState::Dispatched, TransportEvent::SubmitFailed(cause)) => {
                if cause.connect || cause.timeout {
                    Some(
                        (
                            RequestState::NetworkFailed,
                            Action::Return(Err(ApiClientError::NetworkIssue(cause))),
                        ),
                    )
                } else {
                    Some(
                        (
                            RequestState::DispatchFailed,
                            Action::Return(Err(ApiClientError::RequestFailed(cause))),
                        ),
                    )
                }
            },
            (RequestState::Dispatched, TransportEvent::Responded { status }) => {
                match classify_status(status) {
                    StatusClass::Success => Some((RequestState::Success, Action::Decode)),
                    StatusClass::Redirection => Some(
                        (RequestState::Redirected, Action::Return(Err(redirection_error(status)))),
                    ),
                    StatusClass::Other => Some(
                        (RequestState::ErrorBody { status }, Action::ReadText),
                    ),
                }
            },
            (RequestState::Success, TransportEvent::Decoded(outcome)) => {
                let result = self.handle_json_response(outcome);
                let state = if result.is_ok() {
                    RequestState::Decoded
                } else {
                    RequestState::DecodeFailed
                };
                Some((state, Action::Return(result)))
            },
            (RequestState::ErrorBody { status }, TransportEvent::Text(body)) => {
                let error_body = match body {
                    Some(text) => text,
                    None => "Could not read error body".to_owned(),
                };
                Some(
                    (
                        RequestState::ErrorStatus,
                        Action::Return(
                            Err(ApiClientError::HttpError { status, body: error_body, url: None }),
                        ),
                    ),
                )
            },
            _ => None,
        }
    }

    /// Ends a call whose response was a success: with the decoded value, or
    /// with the cause for which the body does not decode.
    fn handle_json_response<T>(&self, outcome: Result<T, TransportFailure>) -> (r: Result<
        T,
        ApiClientError,
    >)
        ensures
            result_view(r) == decoded(decoding_view(outcome)),
    {
        match outcome {
            Ok(result) => Ok(result),
            Err(err) => Err(
                ApiClientError::DeserializationFailed {
                    source: err,
                    body_snippet: "Could not deserialize response".to_owned(),
                },
            ),
        }
    }
}

impl Clone for ApiClient {
    /// Another client on the same base URL and the same connection pool.
    fn clone(&self) -> (r: ApiClient)
        ensures
            r.base() == self.base(),
    {
        ApiClient {
            base_url: self.base_url.clone(),
            http_client: share_transport(&self.http_client),
        }
    }
}

/// The error that reports a redirection with status `status`.
fn redirection_error(status: u16) -> (r: ApiClientError)
    requires
        is_redirection(status),
    ensures
        r@ == ErrorView::InternalError(redirection_message(status)),
{
    let line = write_status(status);
    redirection_report(line.as_str())
}

/// With a transport, every base URL that parses gives a client, and the
/// client resolves an endpoint to what joining it to the parsed base gives.
pub proof fn valid_base_resolves_endpoints(
    transport: Result<reqwest::Client, TransportFailure>,
    base_url: Seq<char>,
    built: Result<ApiClient, ApiClientError>,
    endpoint: Seq<char>,
)
    requires
        transport is Ok,
        url_parse(base_url) is Ok,
        ApiClient::constructs(transport, base_url, built),
    ensures
        built matches Ok(client) && client.is_validated() && client.resolved(endpoint)
            == resolution_of(url_join(url_parse(base_url)->Ok_0, endpoint)),
{
}

/// A base URL that does not parse never gives a client. Construction then
/// fails with the parse error, unless there is no transport either: the
/// transport's failure is reported first.
pub proof fn invalid_base_is_refused(
    transport: Result<reqwest::Client, TransportFailure>,
    base_url: Seq<char>,
    built: Result<ApiClient, ApiClientError>,
)
    requires
        url_parse(base_url) is Err,
        ApiClient::constructs(transport, base_url, built),
    ensures
        built matches Err(e) && (match transport {
            Ok(_) => e@ == ErrorView::BaseUrlInvalid(url_parse(base_url)->Err_0),
            Err(cause) => e@ == ErrorView::HttpClientBuildFailed(cause@),
        }),
{
}

/// Resolving the same endpoint twice on one client gives the same result:
/// the client keeps nothing from one call to the next.
pub proof fn build_url_is_repeatable(
    client: ApiClient,
    endpoint: Seq<char>,
    first: Result<String, ApiClientError>,
    second: Result<String, ApiClientError>,
)
    requires
        resolution_view(first) == client.resolved(endpoint),
        resolution_view(second) == client.resolved(endpoint),
    ensures
        resolution_view(first) == resolution_view(second),
{
}

} // verus!
