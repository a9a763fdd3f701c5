//! One call as a state machine. The machine decides; the caller does what
//! it is told on the transport and reports what came of it.

use crate::errors::{ApiClientError, CauseView, ErrorView, TransportFailure};
use crate::request::{DescriptorView, RequestDescriptor};
use crate::status::{status_class, status_line, StatusClass};
use vstd::prelude::*;
use vstd::string::StringExecFns;

verus! {

/// Where a call stands.
#[derive(Debug, Clone, Copy, PartialEq, Eq, Structural)]
pub enum RequestState {
    /// The descriptor is assembled; nothing was sent.
    Built,
    /// The request is with the transport.
    Dispatched,
    /// The response is a success; its body is being decoded.
    Success,
    /// The response is an error; its body is being read as text.
    ErrorBody { status: u16 },
    /// Over: the request did not reach the server, or ran out of time.
    NetworkFailed,
    /// Over: the request could not be submitted.
    DispatchFailed,
    /// Over: the response was a redirection.
    Redirected,
    /// Over: the response was an error.
    ErrorStatus,
    /// Over: the body was decoded.
    Decoded,
    /// Over: the body does not decode.
    DecodeFailed,
}

/// What the transport reports.
#[derive(Debug)]
pub enum TransportEvent<T> {
    /// A call begins with this descriptor.
    Begin(RequestDescriptor),
    /// The request could not be submitted.
    SubmitFailed(TransportFailure),
    /// A response arrived, with this status code.
    Responded { status: u16 },
    /// The body was decoded as JSON into the target type, or could not be.
    Decoded(Result<T, TransportFailure>),
    /// The body was read as text, or could not be read.
    Text(Option<String>),
}

/// What the caller is to do next.
#[derive(Debug)]
pub enum Action<T> {
    /// Submit the descriptor to the transport.
    Submit(RequestDescriptor),
    /// Decode the body of the response as JSON.
    Decode,
    /// Read the body of the response as text.
    ReadText,
    /// Hand this to whoever made the call.
    Return(Result<T, ApiClientError>),
}

/// An event in mathematical terms.
#[verifier::ext_equal]
pub enum EventView<T> {
    Begin(DescriptorView),
    SubmitFailed(CauseView),
    Responded { status: u16 },
    Decoded(Result<T, CauseView>),
    Text(Option<Seq<char>>),
}

/// An action in mathematical terms.
#[verifier::ext_equal]
pub enum ActionView<T> {
    Submit(DescriptorView),
    Decode,
    ReadText,
    Return(Result<T, ErrorView>),
}

impl<T> View for TransportEvent<T> {
    type V = EventView<T>;

    open spec fn view(&self) -> EventView<T> {
        match self {
            TransportEvent::Begin(descriptor) => EventView::Begin(descriptor@),
            TransportEvent::SubmitFailed(cause) => EventView::SubmitFailed(cause@),
            TransportEvent::Responded { status } => EventView::Responded { status: *status },
            TransportEvent::Decoded(Ok(value)) => EventView::Decoded(Ok(*value)),
            TransportEvent::Decoded(Err(cause)) => EventView::Decoded(Err(cause@)),
            TransportEvent::Text(Some(body)) => EventView::Text(Some(body@)),
            TransportEvent::Text(None) => EventView::Text(None),
        }
    }
}

impl<T> View for Action<T> {
    type V = ActionView<T>;

    open spec fn view(&self) -> ActionView<T> {
        match self {
            Action::Submit(descriptor) => ActionView::Submit(descriptor@),
            Action::Decode => ActionView::Decode,
            Action::ReadText => ActionView::ReadText,
            Action::Return(Ok(value)) => ActionView::Return(Ok(*value)),
            Action::Return(Err(e)) => ActionView::Return(Err(e@)),
        }
    }
}

/// The body that stands in for an error body that could not be read.
pub open spec fn unread_body() -> Seq<char> {
    "Could not read error body"@
}

/// The snippet that stands in for a body that does not decode.
pub open spec fn undecoded_snippet() -> Seq<char> {
    "Could not deserialize response"@
}

/// What a redirection is reported as, given the line that its status is
/// written as.
pub open spec fn redirection_text(line: Seq<char>) -> Seq<char> {
    "Redirection error: "@ + line
}

/// What a redirection with status `status` is reported as.
pub open spec fn redirection_message(status: u16) -> Seq<char> {
    redirection_text(status_line(status))
}

/// The error that reports a redirection whose status is written as `line`.
pub fn redirection_report(line: &str) -> (r: ApiClientError)
    ensures
        r@ == ErrorView::InternalError(redirection_text(line@)),
{
    let mut message = "Redirection error: ".to_owned();
    message.append(line);
    ApiClientError::InternalError(message)
}

impl RequestState {
    /// Whether the call is over.
    pub open spec fn is_terminal(self) -> bool {
        !(self is Built || self is Dispatched || self is Success || self is ErrorBody)
    }

    /// The most events that a call in this state can still take.
    pub open spec fn remaining(self) -> nat {
        match self {
            RequestState::Built => 3,
            RequestState::Dispatched => 2,
            RequestState::Success => 1,
            RequestState::ErrorBody { .. } => 1,
            _ => 0,
        }
    }
}

/// How a failed submission ends the call: as a network failure if the
/// transport could not connect or ran out of time, as a failed request
/// otherwise.
pub open spec fn submit_failure<T>(cause: CauseView) -> (RequestState, ActionView<T>) {
    if cause.connect || cause.timeout {
        (RequestState::NetworkFailed, ActionView::Return(Err(ErrorView::NetworkIssue(cause))))
    } else {
        (RequestState::DispatchFailed, ActionView::Return(Err(ErrorView::RequestFailed(cause))))
    }
}

/// What a response with status `status` leads to: decoding for a success,
/// the end of the call for a redirection, reading the body for the rest.
pub open spec fn classified<T>(status: u16) -> (RequestState, ActionView<T>) {
    match status_class(status) {
        StatusClass::Success => (RequestState::Success, ActionView::Decode),
        StatusClass::Redirection => (
            RequestState::Redirected,
            ActionView::Return(Err(ErrorView::InternalError(redirection_message(status)))),
        ),
        StatusClass::Other => (RequestState::ErrorBody { status }, ActionView::ReadText),
    }
}

/// How decoding ends the call: with the decoded value, or with the cause
/// for which there is none.
pub open spec fn decoded<T>(outcome: Result<T, CauseView>) -> Result<T, ErrorView> {
    match outcome {
        Ok(value) => Ok(value),
        Err(cause) => Err(
            ErrorView::DeserializationFailed { source: cause, body_snippet: undecoded_snippet() },
        ),
    }
}

/// The error for a response with the error status `status` and the body
/// `body`, where an unreadable body is replaced by a fixed text.
pub open spec fn error_response(status: u16, body: Option<Seq<char>>) -> ErrorView {
    ErrorView::HttpError {
        status,
        body: match body {
            Some(text) => text,
            None => unread_body(),
        },
        url: None,
    }
}

/// The state that follows `state` on `event`, and what to do then; nothing
/// where `event` cannot happen in `state`.
pub open spec fn next<T>(state: RequestState, event: EventView<T>) -> Option<
    (RequestState, ActionView<T>),
> {
    match (state, event) {
        (RequestState::Built, EventView::Begin(descriptor)) => Some(
            (RequestState::Dispatched, ActionView::Submit(descriptor)),
        ),
        (RequestState::Dispatched, EventView::SubmitFailed(cause)) => Some(submit_failure(cause)),
        (RequestState::Dispatched, EventView::Responded { status }) => Some(classified(status)),
        (RequestState::Success, EventView::Decoded(outcome)) => Some(
            (
                if outcome is Ok {
                    RequestState::Decoded
                } else {
                    RequestState::DecodeFailed
                },
                ActionView::Return(decoded(outcome)),
            ),
        ),
        (RequestState::ErrorBody { status }, EventView::Text(body)) => Some(
            (RequestState::ErrorStatus, ActionView::Return(Err(error_response(status, body)))),
        ),
        _ => None,
    }
}

/// A step of the machine with its action in mathematical terms.
pub open spec fn step_view<T>(step: Option<(RequestState, Action<T>)>) -> Option<
    (RequestState, ActionView<T>),
> {
    match step {
        Some((state, action)) => Some((state, action@)),
        None => None,
    }
}

/// Everything a transport would answer on one request: whether it could be
/// submitted and with what status the server answered, what decoding the
/// body gives, and what reading the body as text gives.
#[verifier::ext_equal]
pub struct Exchange<T> {
    pub submitted: Result<u16, CauseView>,
    pub decoded: Result<T, CauseView>,
    pub text: Option<Seq<char>>,
}

/// How a call ends on a transport that answers as `exchange` says. A failed
/// submission ends it as a network failure or a failed request. A success
/// status ends it with what decoding gives, a redirection status with the
/// report of the redirection, and any other status with the status and the
/// body as text.
pub open spec fn call_result<T>(exchange: Exchange<T>) -> Result<T, ErrorView> {
    match exchange.submitted {
        Err(cause) => if cause.connect || cause.timeout {
            Err(ErrorView::NetworkIssue(cause))
        } else {
            Err(ErrorView::RequestFailed(cause))
        },
        Ok(status) => match status_class(status) {
            StatusClass::Success => decoded(exchange.decoded),
            StatusClass::Redirection => Err(
                ErrorView::InternalError(redirection_message(status)),
            ),
            StatusClass::Other => Err(error_response(status, exchange.text)),
        },
    }
}

/// What the transport reports when the caller has done `action` on it.
pub open spec fn report<T>(exchange: Exchange<T>, action: ActionView<T>) -> EventView<T> {
    match action {
        ActionView::Decode => EventView::Decoded(exchange.decoded),
        ActionView::ReadText => EventView::Text(exchange.text),
        _ => match exchange.submitted {
            Ok(status) => EventView::Responded { status },
            Err(cause) => EventView::SubmitFailed(cause),
        },
    }
}

/// Where a call that stands in `state` and was told `action` ends, if the
/// caller does as it is told for at most `steps` more steps.
pub open spec fn run<T>(
    exchange: Exchange<T>,
    state: RequestState,
    action: ActionView<T>,
    steps: nat,
) -> Option<Result<T, ErrorView>>
    decreases steps,
{
    match action {
        ActionView::Return(result) => Some(result),
        _ => if steps == 0 {
            None
        } else {
            match next(state, report(exchange, action)) {
                Some((after, then)) => run(exchange, after, then, (steps - 1) as nat),
                None => None,
            }
        },
    }
}

/// A caller that begins a call and then does as it is told gets, within two
/// more steps, the result that the transport's answers decide.
pub proof fn a_call_ends_as_the_transport_decides<T>(
    descriptor: DescriptorView,
    exchange: Exchange<T>,
)
    ensures
        next::<T>(RequestState::Built, EventView::Begin(descriptor)) == Some(
            (RequestState::Dispatched, ActionView::<T>::Submit(descriptor)),
        ),
        run(exchange, RequestState::Dispatched, ActionView::Submit(descriptor), 2) == Some(
            call_result(exchange),
        ),
{
    reveal_with_fuel(run, 3);
}

/// A call that is over takes no further event.
pub proof fn terminal_states_take_no_event<T>(state: RequestState, event: EventView<T>)
    requires
        state.is_terminal(),
    ensures
        next(state, event) is None,
{
}

/// Every step brings the call nearer to its end, and it tells the caller to
/// hand back a result exactly when the call is over. So a call takes at most
/// three events, and none of them twice.
pub proof fn every_step_makes_progress<T>(state: RequestState, event: EventView<T>)
    requires
        next(state, event) is Some,
    ensures
        next(state, event) matches Some((after, action)) && after.remaining() < state.remaining()
            && (action is Return <==> after.is_terminal()),
{
}

/// Only the first step of a call tells the caller to submit a request: a
/// request goes out once, and no response makes it go out again.
pub proof fn only_the_first_step_submits<T>(state: RequestState, event: EventView<T>)
    requires
        next(state, event) matches Some((_, action)) && action is Submit,
    ensures
        state is Built,
        next(state, event) matches Some((after, ActionView::Submit(descriptor))) && after
            is Dispatched && event == EventView::<T>::Begin(descriptor),
{
}

/// A response with an error status ends in the same error whatever type the
/// caller wanted the body decoded into.
pub proof fn error_status_ignores_target<T, U>(status: u16, body: Option<Seq<char>>)
    ensures
        next::<T>(RequestState::ErrorBody { status }, EventView::Text(body)) == Some(
            (
                RequestState::ErrorStatus,
                ActionView::<T>::Return(Err(error_response(status, body))),
            ),
        ),
        next::<U>(RequestState::ErrorBody { status }, EventView::Text(body)) == Some(
            (
                RequestState::ErrorStatus,
                ActionView::<U>::Return(Err(error_response(status, body))),
            ),
        ),
{
}

} // verus!
