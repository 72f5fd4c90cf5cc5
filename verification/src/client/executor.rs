//! The execution of one call, as a state machine.
//!
//! The machine decides; whoever drives it does the outside work. It is fed
//! an event, answers with the next action, and reaches `Finished` with the
//! action that ends the call: read the body, read the error envelope, or
//! fail.

use vstd::prelude::*;
use crate::client::auth::{AuthData, AuthDataView, AuthResponse, AuthStrategy};
use crate::client::decode::api_error;
use crate::client::error::{PayPalError, ValidationError};
use crate::client::headers::with_header;
use crate::client::request::{PreparedRequest, AUTHORIZATION};

verus! {

/// The value of the `Authorization` header of the Bearer scheme.
pub open spec fn bearer_text(token: Seq<char>) -> Seq<char> {
    "Bearer "@ + token
}

/// The status codes of success: 200 to 299.
pub open spec fn is_success_status(status: u16) -> bool {
    200 <= status < 300
}

/// Writes the `Authorization` value of a bearer token.
pub fn bearer(token: &str) -> (r: String)
    ensures
        r@ == bearer_text(token@),
{
    let mut out = "Bearer ".to_owned();
    out.append(token);
    out
}

/// Tells whether a status code reports success.
pub fn is_success(status: u16) -> (r: bool)
    ensures
        r == is_success_status(status),
{
    200 <= status && status < 300
}

/// What a response asks for: its body is read as the expected type where
/// the status reports success, as the provider's error envelope where it does
/// not.
pub open spec fn response_action(status: u16) -> ExecuteAction {
    if is_success_status(status) {
        ExecuteAction::ReadBody
    } else {
        ExecuteAction::ReadError
    }
}

/// Decides how the body of a response is read.
pub fn on_response(status: u16) -> (r: ExecuteAction)
    ensures
        r == response_action(status),
{
    if is_success(status) {
        ExecuteAction::ReadBody
    } else {
        ExecuteAction::ReadError
    }
}

/// What the answer to the authentication handshake comes to. On a success
/// status it is the attempt to read the body as a token response. On any
/// other status the handshake has failed: with an API error that carries the
/// provider's envelope where the body could be read as one, with the
/// decoding error where it could not.
pub open spec fn handshake_result(
    status: u16,
    token: Result<AuthResponse, PayPalError>,
    envelope: Result<ValidationError, PayPalError>,
) -> Result<AuthResponse, PayPalError> {
    if is_success_status(status) {
        token
    } else {
        Err(
            match envelope {
                Ok(error) => PayPalError::Api(error),
                Err(failure) => failure,
            },
        )
    }
}

/// Decides the outcome of the authentication handshake from the status of
/// the answer and the two readings of its body. A non-success status never
/// yields a token.
pub fn handshake_outcome(
    status: u16,
    token: Result<AuthResponse, PayPalError>,
    envelope: Result<ValidationError, PayPalError>,
) -> (r: Result<AuthResponse, PayPalError>)
    ensures
        r == handshake_result(status, token, envelope),
        !is_success_status(status) ==> r is Err,
{
    if is_success(status) {
        token
    } else {
        Err(api_error(envelope))
    }
}

/// True where `sent` is `request` with the bearer token of `auth` as its
/// only `Authorization` header, and nothing else changed.
pub open spec fn authorized(
    request: PreparedRequest,
    auth: AuthDataView,
    sent: PreparedRequest,
) -> bool {
    &&& sent.method == request.method
    &&& sent.url == request.url
    &&& sent.body == request.body
    &&& sent.header_pairs() == with_header(
        request.header_pairs(),
        AUTHORIZATION@,
        bearer_text(auth.access_token),
    )
}

/// Attaches the current bearer token to a request, in place of any
/// `Authorization` header that it has.
pub fn authorize(request: PreparedRequest, auth: &AuthData) -> (r: PreparedRequest)
    ensures
        authorized(request, auth@, r),
{
    let value = bearer(auth.access_token());
    request.set_header(AUTHORIZATION, value.as_str())
}

/// Where the execution of a call stands.
#[derive(Clone, Debug)]
pub enum ExecuteState {
    /// Nothing has happened yet; the request waits to be sent.
    Ready(PreparedRequest),
    /// A token refresh was asked for; the request waits for its outcome.
    Refreshing(PreparedRequest),
    /// The request is out.
    AwaitingResponse,
    /// The call is over.
    Finished,
}

/// What happened outside the machine.
#[derive(Debug)]
pub enum ExecuteEvent {
    /// The call begins, for a descriptor with this strategy, at this time
    /// in seconds since the Unix epoch.
    Start { strategy: AuthStrategy, now: u64 },
    /// The token refresh that was asked for has ended.
    Refreshed(Result<(), PayPalError>),
    /// The request was answered with this status code.
    Responded { status: u16 },
    /// The request could not be sent, or no response arrived.
    SendFailed(PayPalError),
}

/// What is to be done next.
#[derive(Clone, Debug)]
pub enum ExecuteAction {
    /// Run the authentication handshake, then report `Refreshed`.
    Authenticate,
    /// Send this request, then report `Responded` or `SendFailed`.
    Send(PreparedRequest),
    /// The call succeeded: read the body as the expected response type.
    ReadBody,
    /// The provider refused the call: read the body as its error envelope.
    ReadError,
    /// The call failed with this error.
    Fail(PayPalError),
}

impl ExecuteState {
    /// How far the call has come: 0 before anything, 1 while the token is
    /// refreshed, 2 while the request is out, 3 when it is over.
    pub open spec fn phase(self) -> nat {
        match self {
            ExecuteState::Ready(_) => 0,
            ExecuteState::Refreshing(_) => 1,
            ExecuteState::AwaitingResponse => 2,
            ExecuteState::Finished => 3,
        }
    }

    /// The state in which every call starts.
    pub fn new(request: PreparedRequest) -> (r: ExecuteState)
        ensures
            r == ExecuteState::Ready(request),
    {
        ExecuteState::Ready(request)
    }

    /// Takes an event and decides what follows. `auth` is the token as it
    /// stands when the event arrives.
    pub fn step(self, event: ExecuteEvent, auth: &AuthData) -> (r: (ExecuteState, ExecuteAction))
        ensures
            transition(self, event, auth@, r.0, r.1),
    {
        match (self, event) {
            (ExecuteState::Ready(request), ExecuteEvent::Start { strategy, now }) => {
                let refresh = match strategy {
                    AuthStrategy::TokenRefresh => auth.about_to_expire_at(now),
                    AuthStrategy::NoTokenRefresh => false,
                };
                if refresh {
                    (ExecuteState::Refreshing(request), ExecuteAction::Authenticate)
                } else {
                    (ExecuteState::AwaitingResponse, ExecuteAction::Send(authorize(request, auth)))
                }
            },
            (ExecuteState::Refreshing(request), ExecuteEvent::Refreshed(outcome)) => {
                match outcome {
                    Ok(_) => (
                        ExecuteState::AwaitingResponse,
                        ExecuteAction::Send(authorize(request, auth)),
                    ),
                    Err(error) => (ExecuteState::Finished, ExecuteAction::Fail(error)),
                }
            },
            (ExecuteState::AwaitingResponse, ExecuteEvent::Responded { status }) => {
                (ExecuteState::Finished, on_response(status))
            },
            (ExecuteState::AwaitingResponse, ExecuteEvent::SendFailed(error)) => {
                (ExecuteState::Finished, ExecuteAction::Fail(error))
            },
            _ => (
                ExecuteState::Finished,
                ExecuteAction::Fail(PayPalError::LibraryError("Unexpected event".to_owned())),
            ),
        }
    }
}

/// True where the call must refresh its token before the request goes out:
/// the descriptor asks for a fresh token and the token is expiring.
pub open spec fn needs_refresh(strategy: AuthStrategy, auth: AuthDataView, now: u64) -> bool {
    strategy == AuthStrategy::TokenRefresh && auth.expiring_at(now)
}

/// The machine's rule: from a state, on an event, with the token as it
/// stands, to the next state and the action.
///
/// A call that needs a refresh asks for it first and sends nothing. One that
/// needs none, or whose refresh succeeded, sends the request under the
/// current bearer token. A failed refresh or transport ends the call with
/// that error. A response ends it with the order to read the body, on a
/// success status, or the error envelope. An event that does not belong to
/// the state ends the call with a `LibraryError`.
pub open spec fn transition(
    state: ExecuteState,
    event: ExecuteEvent,
    auth: AuthDataView,
    next: ExecuteState,
    action: ExecuteAction,
) -> bool {
    match (state, event) {
        (ExecuteState::Ready(request), ExecuteEvent::Start { strategy, now }) => if needs_refresh(
            strategy,
            auth,
            now,
        ) {
            next == ExecuteState::Refreshing(request) && action == ExecuteAction::Authenticate
        } else {
            &&& next == ExecuteState::AwaitingResponse
            &&& action is Send
            &&& authorized(request, auth, action->Send_0)
        },
        (ExecuteState::Refreshing(request), ExecuteEvent::Refreshed(Ok(_))) => {
            &&& next == ExecuteState::AwaitingResponse
            &&& action is Send
            &&& authorized(request, auth, action->Send_0)
        },
        (ExecuteState::Refreshing(_), ExecuteEvent::Refreshed(Err(error))) => {
            next == ExecuteState::Finished && action == ExecuteAction::Fail(error)
        },
        (ExecuteState::AwaitingResponse, ExecuteEvent::Responded { status }) => {
            next == ExecuteState::Finished && action == response_action(status)
        },
        (ExecuteState::AwaitingResponse, ExecuteEvent::SendFailed(error)) => {
            next == ExecuteState::Finished && action == ExecuteAction::Fail(error)
        },
        _ => {
            &&& next == ExecuteState::Finished
            &&& action is Fail
            &&& action->Fail_0 is LibraryError
        },
    }
}

/// One step of a call: the event that arrived, the token as it stood, and
/// what the machine answered.
pub struct ExecuteStep {
    pub event: ExecuteEvent,
    pub auth: AuthDataView,
    pub next: ExecuteState,
    pub action: ExecuteAction,
}

/// The state after a sequence of steps from `start`.
pub open spec fn state_after(start: ExecuteState, steps: Seq<ExecuteStep>) -> ExecuteState {
    if steps.len() == 0 {
        start
    } else {
        steps.last().next
    }
}

/// True where a sequence of steps is what the machine does from `start`:
/// each step follows the rule from the state that the steps before it left.
pub open spec fn is_run(start: ExecuteState, steps: Seq<ExecuteStep>) -> bool
    decreases steps.len(),
{
    steps.len() == 0 || {
        let before = steps.drop_last();
        let last = steps.last();
        &&& is_run(start, before)
        &&& transition(state_after(start, before), last.event, last.auth, last.next, last.action)
    }
}

/// The number of requests that a sequence of steps sends.
pub open spec fn sends(steps: Seq<ExecuteStep>) -> nat
    decreases steps.len(),
{
    if steps.len() == 0 {
        0
    } else {
        sends(steps.drop_last()) + if steps.last().action is Send {
            1nat
        } else {
            0nat
        }
    }
}

/// Every step moves the call forward, and a request is sent on exactly the
/// steps that enter `AwaitingResponse`. A finished call stays finished.
pub proof fn lemma_step_advances(
    state: ExecuteState,
    event: ExecuteEvent,
    auth: AuthDataView,
    next: ExecuteState,
    action: ExecuteAction,
)
    requires
        transition(state, event, auth, next, action),
    ensures
        state.phase() < next.phase() || (state is Finished && next is Finished),
        action is Send <==> next is AwaitingResponse,
        action is Authenticate <==> next is Refreshing,
        action is ReadBody || action is ReadError ==> state is AwaitingResponse,
{
}

/// The beginning of a run is a run, and each step of a run follows the rule
/// from the state that the steps before it left.
pub proof fn lemma_run_prefix(start: ExecuteState, steps: Seq<ExecuteStep>, k: int)
    requires
        is_run(start, steps),
        0 <= k <= steps.len(),
    ensures
        is_run(start, steps.take(k)),
        k < steps.len() ==> transition(
            state_after(start, steps.take(k)),
            steps[k].event,
            steps[k].auth,
            steps[k].next,
            steps[k].action,
        ),
    decreases steps.len(),
{
    if k == steps.len() {
        assert(steps.take(k) =~= steps);
    } else {
        let before = steps.drop_last();
        assert(before.take(k) =~= steps.take(k));
        if k < before.len() {
            lemma_run_prefix(start, before, k);
        } else {
            assert(before.take(k) =~= before);
        }
    }
}

/// Exactly one request per call: a run from `Ready` sends none while the
/// call has not reached `AwaitingResponse`, one while the request is out,
/// and never a second; and a response is read only after that one request.
pub proof fn lemma_one_request_per_call(request: PreparedRequest, steps: Seq<ExecuteStep>)
    requires
        is_run(ExecuteState::Ready(request), steps),
    ensures
        sends(steps) <= 1,
        state_after(ExecuteState::Ready(request), steps).phase() < 2 ==> sends(steps) == 0,
        state_after(ExecuteState::Ready(request), steps) is AwaitingResponse ==> sends(steps) == 1,
        steps.len() > 0 && (steps.last().action is ReadBody || steps.last().action is ReadError)
            ==> sends(steps) == 1,
    decreases steps.len(),
{
    if steps.len() > 0 {
        let start = ExecuteState::Ready(request);
        let before = steps.drop_last();
        let last = steps.last();
        lemma_one_request_per_call(request, before);
        lemma_step_advances(
            state_after(start, before),
            last.event,
            last.auth,
            last.next,
            last.action,
        );
    }
}

/// No request before a required refresh completes: in a call that starts
/// with a descriptor that asks for a fresh token while the token is
/// expiring, the first action is `Authenticate`, and a request is sent only
/// on the second step, on the news that the refresh succeeded.
pub proof fn lemma_refresh_precedes_request(
    request: PreparedRequest,
    steps: Seq<ExecuteStep>,
    i: int,
)
    requires
        is_run(ExecuteState::Ready(request), steps),
        steps.len() > 0,
        steps[0].event is Start,
        needs_refresh(
            steps[0].event->Start_strategy,
            steps[0].auth,
            steps[0].event->Start_now,
        ),
        0 <= i < steps.len(),
    ensures
        steps[0].action is Authenticate,
        steps[i].action is Send ==> i == 1 && steps[1].event is Refreshed
            && steps[1].event->Refreshed_0 is Ok,
{
    let start = ExecuteState::Ready(request);
    lemma_run_prefix(start, steps, 0);
    assert(steps.take(0).len() == 0);
    assert(steps[0].next is Refreshing);
    if i >= 1 {
        lemma_run_prefix(start, steps, 1);
        assert(steps.take(1).last() == steps[0]);
        if i >= 2 {
            lemma_step_advances(
                steps[0].next,
                steps[1].event,
                steps[1].auth,
                steps[1].next,
                steps[1].action,
            );
            assert(steps.take(2).last() == steps[1]);
            lemma_phase_grows(start, steps, 2, i);
            lemma_run_prefix(start, steps, i);
            lemma_step_advances(
                state_after(start, steps.take(i)),
                steps[i].event,
                steps[i].auth,
                steps[i].next,
                steps[i].action,
            );
        }
    }
}

/// The call never goes back: the state after more steps is no earlier than
/// the state after fewer.
pub proof fn lemma_phase_grows(start: ExecuteState, steps: Seq<ExecuteStep>, j: int, k: int)
    requires
        is_run(start, steps),
        0 <= j <= k <= steps.len(),
    ensures
        state_after(start, steps.take(j)).phase() <= state_after(start, steps.take(k)).phase(),
    decreases k - j,
{
    if j < k {
        lemma_phase_grows(start, steps, j, k - 1);
        lemma_run_prefix(start, steps, k - 1);
        assert(steps.take(k).last() == steps[k - 1]);
        lemma_step_advances(
            state_after(start, steps.take(k - 1)),
            steps[k - 1].event,
            steps[k - 1].auth,
            steps[k - 1].next,
            steps[k - 1].action,
        );
    }
}

} // verus!
