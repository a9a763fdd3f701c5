use api_client::dispatch::{redirection_report, Action, RequestState, TransportEvent};
use api_client::status::{classify_status, StatusClass};
use api_client::{ApiClient, ApiClientError, RequestDescriptor, TransportFailure};

#[derive(Debug, PartialEq)]
struct Record {
    id: u64,
    name: String,
}

impl<'de> serde::Deserialize<'de> for Record {
    fn deserialize<D: serde::Deserializer<'de>>(deserializer: D) -> Result<Self, D::Error> {
        let fields = std::collections::BTreeMap::<String, serde_json::Value>::deserialize(deserializer)?;
        let id = fields
            .get("id")
            .and_then(|v| v.as_u64())
            .ok_or_else(|| <D::Error as serde::de::Error>::missing_field("id"))?;
        let name = fields
            .get("name")
            .and_then(|v| v.as_str())
            .ok_or_else(|| <D::Error as serde::de::Error>::missing_field("name"))?;
        Ok(Record { id, name: name.to_owned() })
    }
}

/// What a transport that is not there answers.
enum Mock {
    Fails(TransportFailure),
    Responds { status: u16, body: Option<&'static str> },
}

fn failure(connect: bool, timeout: bool, description: &str) -> TransportFailure {
    TransportFailure { connect, timeout, description: description.to_owned() }
}

fn client() -> ApiClient {
    ApiClient::new("https://api.example.com/v1/").expect("the base parses")
}

/// Runs one call against `mock` and hands back its result, the states it went
/// through and the number of times the request was submitted.
fn call<T: serde::de::DeserializeOwned>(
    client: &ApiClient,
    descriptor: RequestDescriptor,
    mock: Mock,
) -> (Result<T, ApiClientError>, Vec<RequestState>, usize) {
    let mut states = vec![RequestState::Built];
    let mut submitted = 0;
    let mut event = TransportEvent::Begin(descriptor);
    loop {
        let state = *states.last().expect("a state");
        let (next, action) = client.send_request::<T>(state, event).expect("an event that fits");
        states.push(next);
        event = match action {
            Action::Submit(sent) => {
                assert_eq!(sent.url(), "https://api.example.com/v1/users");
                submitted += 1;
                match &mock {
                    Mock::Fails(cause) => TransportEvent::SubmitFailed(failure(
                        cause.connect,
                        cause.timeout,
                        &cause.description,
                    )),
                    Mock::Responds { status, .. } => TransportEvent::Responded { status: *status },
                }
            }
            Action::Decode => match &mock {
                Mock::Responds { body: Some(body), .. } => TransportEvent::Decoded(
                    serde_json::from_str::<T>(body).map_err(|e| failure(false, false, &e.to_string())),
                ),
                _ => TransportEvent::Decoded(Err(failure(false, false, "no body"))),
            },
            Action::ReadText => match &mock {
                Mock::Responds { body, .. } => TransportEvent::Text(body.map(|b| b.to_owned())),
                Mock::Fails(_) => unreachable!("no response to read"),
            },
            Action::Return(result) => return (result, states, submitted),
        };
    }
}

fn users(client: &ApiClient) -> RequestDescriptor {
    client.get("users").expect("the endpoint resolves")
}

#[test]
fn success_decodes_into_the_record() {
    let client = client();
    let mock = Mock::Responds { status: 200, body: Some("{\"id\":1,\"name\":\"a\"}") };
    let (result, states, submitted) = call::<Record>(&client, users(&client), mock);
    assert_eq!(result, Ok(Record { id: 1, name: "a".to_owned() }));
    assert_eq!(
        states,
        vec![
            RequestState::Built,
            RequestState::Dispatched,
            RequestState::Success,
            RequestState::Decoded
        ]
    );
    assert_eq!(submitted, 1);
}

#[test]
fn success_with_an_incompatible_target_fails_to_decode() {
    let client = client();
    let mock = Mock::Responds { status: 200, body: Some("{\"id\":1,\"name\":\"a\"}") };
    let (result, states, _) = call::<Vec<u64>>(&client, users(&client), mock);
    match result {
        Err(ApiClientError::DeserializationFailed { source, body_snippet }) => {
            assert_eq!(body_snippet, "Could not deserialize response");
            assert!(!source.connect && !source.timeout);
            assert!(source.description.contains("invalid type: map"));
        }
        other => panic!("not a decode failure: {:?}", other),
    }
    assert_eq!(states.last(), Some(&RequestState::DecodeFailed));
}

#[test]
fn every_success_status_is_decoded() {
    let client = client();
    for status in [200, 201, 204, 226, 299] {
        let mock = Mock::Responds { status, body: Some("[1,2,3]") };
        let (result, _, _) = call::<Vec<u64>>(&client, users(&client), mock);
        assert_eq!(result, Ok(vec![1, 2, 3]));
    }
}

#[test]
fn not_found_carries_status_and_body() {
    let client = client();
    let expected =
        ApiClientError::HttpError { status: 404, body: "not found".to_owned(), url: None };
    let mock = Mock::Responds { status: 404, body: Some("not found") };
    let (result, states, submitted) = call::<Record>(&client, users(&client), mock);
    assert_eq!(result, Err(expected));
    assert_eq!(
        states,
        vec![
            RequestState::Built,
            RequestState::Dispatched,
            RequestState::ErrorBody { status: 404 },
            RequestState::ErrorStatus
        ]
    );
    assert_eq!(submitted, 1);
}

#[test]
fn not_found_is_the_same_for_every_target() {
    let client = client();
    let expected =
        || ApiClientError::HttpError { status: 404, body: "not found".to_owned(), url: None };
    let mock = || Mock::Responds { status: 404, body: Some("not found") };
    assert_eq!(call::<Record>(&client, users(&client), mock()).0, Err(expected()));
    assert_eq!(call::<Vec<u64>>(&client, users(&client), mock()).0, Err(expected()));
    assert_eq!(call::<String>(&client, users(&client), mock()).0, Err(expected()));
    assert_eq!(call::<()>(&client, users(&client), mock()).0, Err(expected()));
}

#[test]
fn error_body_is_not_decoded() {
    let client = client();
    let mock = Mock::Responds { status: 500, body: Some("{\"id\":1,\"name\":\"a\"}") };
    let (result, _, _) = call::<Record>(&client, users(&client), mock);
    assert_eq!(
        result,
        Err(ApiClientError::HttpError {
            status: 500,
            body: "{\"id\":1,\"name\":\"a\"}".to_owned(),
            url: None
        })
    );
}

#[test]
fn unreadable_error_body_gets_a_placeholder() {
    let client = client();
    let mock = Mock::Responds { status: 503, body: None };
    let (result, _, _) = call::<Record>(&client, users(&client), mock);
    assert_eq!(
        result,
        Err(ApiClientError::HttpError {
            status: 503,
            body: "Could not read error body".to_owned(),
            url: None
        })
    );
}

#[test]
fn informational_and_unknown_statuses_are_errors() {
    let client = client();
    for status in [100, 101, 199, 400, 418, 499, 500, 599, 600, 999] {
        let mock = Mock::Responds { status, body: Some("") };
        let (result, _, _) = call::<Record>(&client, users(&client), mock);
        assert_eq!(
            result,
            Err(ApiClientError::HttpError { status, body: String::new(), url: None })
        );
    }
}

#[test]
fn redirection_is_reported_and_not_followed() {
    let client = client();
    let mock = Mock::Responds { status: 302, body: Some("{\"id\":1,\"name\":\"a\"}") };
    let (result, states, submitted) = call::<Record>(&client, users(&client), mock);
    assert_eq!(
        result,
        Err(ApiClientError::InternalError("Redirection error: 302 Found".to_owned()))
    );
    assert_eq!(
        states,
        vec![RequestState::Built, RequestState::Dispatched, RequestState::Redirected]
    );
    assert_eq!(submitted, 1);
}

#[test]
fn every_redirection_status_is_reported() {
    let client = client();
    let cases = [
        (300, "Redirection error: 300 Multiple Choices"),
        (301, "Redirection error: 301 Moved Permanently"),
        (304, "Redirection error: 304 Not Modified"),
        (308, "Redirection error: 308 Permanent Redirect"),
        (399, "Redirection error: 399 <unknown status code>"),
    ];
    for (status, message) in cases {
        let mock = Mock::Responds { status, body: None };
        let (result, _, _) = call::<Record>(&client, users(&client), mock);
        assert_eq!(result, Err(ApiClientError::InternalError(message.to_owned())));
    }
}

#[test]
fn timeout_is_a_network_issue() {
    let client = client();
    let cause = failure(false, true, "operation timed out");
    let (result, states, submitted) =
        call::<Record>(&client, users(&client), Mock::Fails(failure(false, true, "operation timed out")));
    assert_eq!(result, Err(ApiClientError::NetworkIssue(cause)));
    assert_eq!(
        states,
        vec![RequestState::Built, RequestState::Dispatched, RequestState::NetworkFailed]
    );
    assert_eq!(submitted, 1);
}

#[test]
fn refused_connection_is_a_network_issue() {
    let client = client();
    let (result, _, _) =
        call::<Record>(&client, users(&client), Mock::Fails(failure(true, false, "connection refused")));
    assert_eq!(result, Err(ApiClientError::NetworkIssue(failure(true, false, "connection refused"))));
    let (result, _, _) =
        call::<Record>(&client, users(&client), Mock::Fails(failure(true, true, "connect timed out")));
    assert_eq!(result, Err(ApiClientError::NetworkIssue(failure(true, true, "connect timed out"))));
}

#[test]
fn other_submission_failure_is_a_failed_request() {
    let client = client();
    let (result, states, submitted) =
        call::<Record>(&client, users(&client), Mock::Fails(failure(false, false, "builder error")));
    assert_eq!(result, Err(ApiClientError::RequestFailed(failure(false, false, "builder error"))));
    assert_eq!(
        states,
        vec![RequestState::Built, RequestState::Dispatched, RequestState::DispatchFailed]
    );
    assert_eq!(submitted, 1);
}

#[test]
fn begin_hands_the_descriptor_to_the_transport() {
    let client = client();
    let descriptor = users(&client);
    let descriptor =
        client.add_query_params(descriptor, Some(&vec![("page".to_owned(), "2".to_owned())]));
    match client.send_request::<Record>(RequestState::Built, TransportEvent::Begin(descriptor)) {
        Some((RequestState::Dispatched, Action::Submit(sent))) => {
            assert_eq!(sent.url(), "https://api.example.com/v1/users");
            assert_eq!(sent.query(), &vec![("page".to_owned(), "2".to_owned())]);
            assert!(sent.headers().is_empty());
        }
        other => panic!("not a submission: {:?}", other),
    }
}

#[test]
fn an_event_out_of_turn_is_not_taken() {
    let client = client();
    let text = || TransportEvent::<Record>::Text(Some("x".to_owned()));
    let responded = || TransportEvent::<Record>::Responded { status: 200 };
    let decoded = || TransportEvent::<Record>::Decoded(Err(failure(false, false, "x")));
    let failed = || TransportEvent::<Record>::SubmitFailed(failure(true, false, "x"));
    assert!(client.send_request(RequestState::Built, responded()).is_none());
    assert!(client.send_request(RequestState::Built, failed()).is_none());
    assert!(client.send_request(RequestState::Built, text()).is_none());
    assert!(client.send_request(RequestState::Built, decoded()).is_none());
    assert!(client.send_request(RequestState::Dispatched, text()).is_none());
    assert!(client.send_request(RequestState::Dispatched, decoded()).is_none());
    assert!(client
        .send_request(RequestState::Dispatched, TransportEvent::<Record>::Begin(users(&client)))
        .is_none());
    assert!(client.send_request(RequestState::Success, text()).is_none());
    assert!(client.send_request(RequestState::Success, responded()).is_none());
    assert!(client.send_request(RequestState::ErrorBody { status: 404 }, decoded()).is_none());
    assert!(client.send_request(RequestState::ErrorBody { status: 404 }, responded()).is_none());
}

#[test]
fn a_call_that_is_over_takes_no_event() {
    let client = client();
    let over = [
        RequestState::NetworkFailed,
        RequestState::DispatchFailed,
        RequestState::Redirected,
        RequestState::ErrorStatus,
        RequestState::Decoded,
        RequestState::DecodeFailed,
    ];
    for state in over {
        assert!(client
            .send_request(state, TransportEvent::<Record>::Begin(users(&client)))
            .is_none());
        assert!(client
            .send_request(state, TransportEvent::<Record>::SubmitFailed(failure(true, true, "x")))
            .is_none());
        assert!(client
            .send_request(state, TransportEvent::<Record>::Responded { status: 200 })
            .is_none());
        assert!(client
            .send_request(state, TransportEvent::<Record>::Decoded(Ok(Record { id: 1, name: String::new() })))
            .is_none());
        assert!(client.send_request(state, TransportEvent::<Record>::Text(None)).is_none());
    }
}

#[test]
fn classify_status_at_the_borders() {
    assert_eq!(classify_status(0), StatusClass::Other);
    assert_eq!(classify_status(199), StatusClass::Other);
    assert_eq!(classify_status(200), StatusClass::Success);
    assert_eq!(classify_status(299), StatusClass::Success);
    assert_eq!(classify_status(300), StatusClass::Redirection);
    assert_eq!(classify_status(399), StatusClass::Redirection);
    assert_eq!(classify_status(400), StatusClass::Other);
    assert_eq!(classify_status(u16::MAX), StatusClass::Other);
}

#[test]
fn redirection_report_puts_the_status_line_behind_the_prefix() {
    assert_eq!(
        redirection_report("302 Found"),
        ApiClientError::InternalError("Redirection error: 302 Found".to_owned())
    );
    assert_eq!(
        redirection_report(""),
        ApiClientError::InternalError("Redirection error: ".to_owned())
    );
}
