//! A JSON-RPC call, from the permit to send it to its result.
//!
//! A driver carries a call out: it does what a [`CallAction`] says, and reports what came of it as
//! a [`CallEvent`]. [`Client::start`] gives the first action, [`Client::step`] the next one.
use vstd::pervasive::unreached;
use vstd::prelude::*;
use vstd::utf8::{decode_utf8, valid_utf8};

use crate::client::http::{
    body_text, is_success, rpc_body, utf8_error, HttpReply, HttpRequest, HttpRequestView, Response,
};
use crate::client::{taken_from, Client, ClientResult, ClientView};
use crate::document::{array_value, json_texts, number_value, object_value, string_value, to_vec};
use crate::error::{transport_error_view, BitcoinRpcError, ClientError, ClientErrorView};
use crate::text::displays_as;

verus! {

/// How far a call has come.
pub enum CallState {
    /// Waiting for a permit to send.
    Acquiring,
    /// The request is on its way, and was sent `retries` times before.
    Sending { retries: u16 },
    /// The request has failed `retries` times and will be sent again.
    Waiting { retries: u16 },
    /// The body of a reply that reports failure is being read.
    ReadingFailure { status_code: i32, reason_phrase: String, body: String },
    /// The body of a reply that reports success is being read.
    ReadingResult,
    /// The call is over.
    Finished,
}

/// A [`CallState`] with its texts as sequences of characters.
pub enum CallStateView {
    Acquiring,
    Sending { retries: u16 },
    Waiting { retries: u16 },
    ReadingFailure { status_code: i32, reason_phrase: Seq<char>, body: Seq<char> },
    ReadingResult,
    Finished,
}

impl View for CallState {
    type V = CallStateView;

    open spec fn view(&self) -> CallStateView {
        match *self {
            CallState::Acquiring => CallStateView::Acquiring,
            CallState::Sending { retries } => CallStateView::Sending { retries },
            CallState::Waiting { retries } => CallStateView::Waiting { retries },
            CallState::ReadingFailure { status_code, reason_phrase, body } => {
                CallStateView::ReadingFailure {
                    status_code,
                    reason_phrase: reason_phrase@,
                    body: body@,
                }
            },
            CallState::ReadingResult => CallStateView::ReadingResult,
            CallState::Finished => CallStateView::Finished,
        }
    }
}

/// What came of an action.
pub enum CallEvent<T> {
    /// The limiter gave a permit, or is closed.
    Acquired(bool),
    /// No reply came back.
    SendFailed(bitreq::Error),
    /// A reply came back.
    Replied(HttpReply),
    /// The time is over.
    Waited,
    /// The body as a response, where it is one.
    FailureRead(Option<Response<serde_json::Value>>),
    /// The body as a response with a result of the type that the caller asked for.
    ResultRead(Result<Response<T>, serde_json::Error>),
}

/// What a driver has to do next.
pub enum CallAction<T> {
    /// Acquire a permit from the client's limiter.
    Acquire,
    /// Send the request.
    Send(HttpRequest),
    /// Wait for so many milliseconds.
    Wait(u64),
    /// Read the text as a response that reports an error.
    ReadFailure(String),
    /// Read the text as a response with a result.
    ReadResult(String),
    /// Return the result of the call.
    Finish(ClientResult<T>),
}

/// A [`CallAction`] with its texts as sequences of characters.
pub enum CallActionView<T> {
    Acquire,
    Send(HttpRequestView),
    Wait(u64),
    ReadFailure(Seq<char>),
    ReadResult(Seq<char>),
    Finish(Result<T, ClientErrorView>),
}

impl<T> View for CallAction<T> {
    type V = CallActionView<T>;

    open spec fn view(&self) -> CallActionView<T> {
        match *self {
            CallAction::Acquire => CallActionView::Acquire,
            CallAction::Send(request) => CallActionView::Send(request@),
            CallAction::Wait(ms) => CallActionView::Wait(ms),
            CallAction::ReadFailure(text) => CallActionView::ReadFailure(text@),
            CallAction::ReadResult(text) => CallActionView::ReadResult(text@),
            CallAction::Finish(result) => CallActionView::Finish(result_view(result)),
        }
    }
}

/// A result with its error as a [`ClientErrorView`].
pub open spec fn result_view<T>(result: ClientResult<T>) -> Result<T, ClientErrorView> {
    match result {
        Ok(value) => Ok(value),
        Err(error) => Err(error@),
    }
}

impl CallStateView {
    /// Whether a call of `client` can be in this state: a request is sent again only while fewer
    /// than `max_retries` attempts have failed.
    pub open spec fn wf(self, client: ClientView) -> bool {
        match self {
            CallStateView::Sending { retries } => retries == 0 || retries < client.max_retries,
            CallStateView::Waiting { retries } => 0 < retries < client.max_retries,
            _ => true,
        }
    }

    /// Whether `event` can come up in this state.
    pub open spec fn expects<T>(self, event: CallEvent<T>) -> bool {
        match self {
            CallStateView::Acquiring => event is Acquired,
            CallStateView::Sending { .. } => event is SendFailed || event is Replied,
            CallStateView::Waiting { .. } => event is Waited,
            CallStateView::ReadingFailure { .. } => event is FailureRead,
            CallStateView::ReadingResult => event is ResultRead,
            CallStateView::Finished => false,
        }
    }
}

/// Whether sending the request again may help after `error`: the connection failed, or the reply
/// was malformed in a way that another one need not be.
pub open spec fn recoverable(error: bitreq::Error) -> bool {
    match error {
        bitreq::Error::AddressNotFound
        | bitreq::Error::IoError(_)
        | bitreq::Error::RustlsCreateConnection(_)
        | bitreq::Error::MalformedChunkLength
        | bitreq::Error::MalformedChunkEnd
        | bitreq::Error::MalformedContentLength
        | bitreq::Error::InvalidUtf8InResponse => true,
        _ => false,
    }
}

/// The request that `client` sends for a call, with request number `id`.
pub open spec fn request_view(
    client: ClientView,
    id: usize,
    method: Seq<char>,
    params: Seq<Seq<char>>,
) -> HttpRequestView {
    HttpRequestView {
        url: client.url,
        headers: seq![
            ("Authorization"@, client.authorization),
            ("Content-Type"@, "application/json"@),
        ],
        body: rpc_body(id as nat, method, params),
        timeout: client.timeout,
    }
}

/// The client's error for an error that the server reports.
pub open spec fn server_error(error: BitcoinRpcError) -> ClientErrorView {
    ClientErrorView::Server(error.code, error.message@)
}

/// The error of a call whose reply reports failure: what the server reports in the body, or else
/// the status, cut to sixteen bits, with the reason phrase and the body.
pub open spec fn failure_error<R>(
    status_code: i32,
    reason_phrase: Seq<char>,
    body: Seq<char>,
    response: Option<Response<R>>,
) -> ClientErrorView {
    match response {
        Some(Response { error: Some(error), .. }) => server_error(error),
        _ => ClientErrorView::Status(
            (status_code as int % 0x1_0000) as u16,
            reason_phrase + " | body: "@ + body,
        ),
    }
}

/// The result of a call whose reply reports success.
pub open spec fn response_result<T>(response: Response<T>) -> Result<T, ClientErrorView> {
    match response.error {
        Some(error) => Err(server_error(error)),
        None => match response.result {
            Some(value) => Ok(value),
            None => Err(ClientErrorView::Other("Empty data received"@)),
        },
    }
}

/// Whether `next` and `action` are to send the request, after `retries` failed attempts, under a
/// number taken from the client's counter.
pub open spec fn sends<T>(
    client: Client,
    method: Seq<char>,
    params: Seq<Seq<char>>,
    retries: u16,
    next: CallStateView,
    action: CallActionView<T>,
) -> bool {
    &&& next == CallStateView::Sending { retries }
    &&& exists|id: usize|
        taken_from(client.counter(), id) && action == CallActionView::<T>::Send(
            #[trigger] request_view(client@, id, method, params),
        )
}

/// Whether `next` and `action` end the call with an error for which `error` stands, where `text`
/// is what `cause` displays as.
pub open spec fn fails_with<T, E: core::fmt::Display>(
    cause: E,
    error: spec_fn(Seq<char>) -> ClientErrorView,
    next: CallStateView,
    action: CallActionView<T>,
) -> bool {
    &&& next == CallStateView::Finished
    &&& exists|text: Seq<char>| #[trigger]
        displays_as(&cause, text) && action == CallActionView::<T>::Finish(Err(error(text)))
}

/// Whether a call begins with `state` and `action`: with a permit where the client limits its
/// requests, or else by sending the request.
pub open spec fn starts<T>(
    client: Client,
    method: Seq<char>,
    params: Seq<Seq<char>>,
    state: CallStateView,
    action: CallActionView<T>,
) -> bool {
    if client@.max_in_flight_requests is Some {
        state == CallStateView::Acquiring && action == CallActionView::<T>::Acquire
    } else {
        sends(client, method, params, 0, state, action)
    }
}

/// Whether `event` leads from `state` to `next`, and makes `action` the next thing to do.
pub open spec fn steps<T>(
    client: Client,
    method: Seq<char>,
    params: Seq<Seq<char>>,
    state: CallStateView,
    event: CallEvent<T>,
    next: CallStateView,
    action: CallActionView<T>,
) -> bool {
    match (state, event) {
        (CallStateView::Acquiring, CallEvent::Acquired(permitted)) => if permitted {
            sends(client, method, params, 0, next, action)
        } else {
            &&& next == CallStateView::Finished
            &&& action == CallActionView::<T>::Finish(
                Err(ClientErrorView::Other("request limiter closed"@)),
            )
        },
        (CallStateView::Sending { retries }, CallEvent::SendFailed(error)) => if !recoverable(
            error,
        ) {
            fails_with(error, |text: Seq<char>| transport_error_view(error, text), next, action)
        } else if retries + 1 >= client@.max_retries {
            &&& next == CallStateView::Finished
            &&& action == CallActionView::<T>::Finish(
                Err(ClientErrorView::MaxRetriesExceeded(client@.max_retries)),
            )
        } else {
            &&& next == CallStateView::Waiting { retries: (retries + 1) as u16 }
            &&& action == CallActionView::<T>::Wait(client@.retry_interval)
        },
        (CallStateView::Sending { .. }, CallEvent::Replied(reply)) => if !valid_utf8(
            reply.body@,
        ) {
            fails_with(
                bitreq::Error::InvalidUtf8InBody(utf8_error(reply.body@)),
                |text: Seq<char>| ClientErrorView::Parse(text),
                next,
                action,
            )
        } else if is_success(reply.status_code) {
            &&& next == CallStateView::ReadingResult
            &&& action == CallActionView::<T>::ReadResult(decode_utf8(reply.body@))
        } else {
            &&& next == CallStateView::ReadingFailure {
                status_code: reply.status_code,
                reason_phrase: reply.reason_phrase@,
                body: decode_utf8(reply.body@),
            }
            &&& action == CallActionView::<T>::ReadFailure(decode_utf8(reply.body@))
        },
        (CallStateView::Waiting { retries }, CallEvent::Waited) => {
            sends(client, method, params, retries, next, action)
        },
        (
            CallStateView::ReadingFailure { status_code, reason_phrase, body },
            CallEvent::FailureRead(response),
        ) => {
            &&& next == CallStateView::Finished
            &&& action == CallActionView::<T>::Finish(
                Err(failure_error(status_code, reason_phrase, body, response)),
            )
        },
        (CallStateView::ReadingResult, CallEvent::ResultRead(read)) => match read {
            Ok(response) => {
                &&& next == CallStateView::Finished
                &&& action == CallActionView::<T>::Finish(response_result(response))
            },
            Err(error) => {
                fails_with(error, |text: Seq<char>| ClientErrorView::Parse(text), next, action)
            },
        },
        _ => false,
    }
}

/// Ends a call.
fn finish<T>(result: ClientResult<T>) -> (r: (CallState, CallAction<T>))
    ensures
        r.0@ == CallStateView::Finished,
        r.1@ == CallActionView::<T>::Finish(result_view(result)),
{
    (CallState::Finished, CallAction::Finish(result))
}

/// The error for a reply that could not be read.
fn parse_error<E: core::fmt::Display>(cause: &E) -> (r: ClientError)
    ensures
        r matches ClientError::Parse(text) && displays_as(cause, text@),
{
    ClientError::Parse(cause.to_string())
}

/// The error for a request that could not be written.
fn request_error(cause: &serde_json::Error) -> (r: ClientError)
    ensures
        exists|text: Seq<char>| #[trigger]
            displays_as(cause, text) && r@ == ClientErrorView::Param(
                "Error serializing request: "@ + text,
            ),
{
    let detail = cause.to_string();
    let mut text = String::new();
    text.append("Error serializing request: ");
    text.append(detail.as_str());
    proof {
        assert(displays_as(cause, detail@));
        assert(text@ =~= "Error serializing request: "@ + detail@);
    }
    ClientError::Param(text)
}

/// The error of a call whose reply reports failure, where `response` is the body read as a
/// response.
pub fn failed_reply<R>(
    status_code: i32,
    reason_phrase: &str,
    body: &str,
    response: Option<Response<R>>,
) -> (r: ClientError)
    ensures
        r@ == failure_error(status_code, reason_phrase@, body@, response),
{
    if let Some(data) = response {
        if let Some(error) = data.error {
            return ClientError::from(error);
        }
    }
    let mut text = String::new();
    text.append(reason_phrase);
    text.append(" | body: ");
    text.append(body);
    proof {
        assert(text@ =~= reason_phrase@ + " | body: "@ + body@);
        assert(status_code as u16 == (status_code as int % 0x1_0000) as u16) by (bit_vector);
    }
    #[verifier::truncate]
    let code: u16 = status_code as u16;
    ClientError::Status(code, text)
}

/// The result of a call whose reply reports success.
pub fn read_response<T>(response: Response<T>) -> (r: ClientResult<T>)
    ensures
        result_view(r) == response_result(response),
{
    if let Some(error) = response.error {
        return Err(ClientError::from(error));
    }
    match response.result {
        Some(value) => Ok(value),
        None => Err(ClientError::Other("Empty data received".to_string())),
    }
}

impl Client {
    /// The request for a call, with request number `id`.
    pub fn request(&self, id: usize, method: &str, params: &[serde_json::Value]) -> (r:
        ClientResult<HttpRequest>)
        ensures
            r matches Ok(request) && request@ == request_view(
                self@,
                id,
                method@,
                json_texts(params@),
            ),
    {
        let members: Vec<(String, serde_json::Value)> = vec![
            ("id".to_string(), number_value(id)),
            ("jsonrpc".to_string(), string_value("1.0")),
            ("method".to_string(), string_value(method)),
            ("params".to_string(), array_value(params)),
        ];
        proof {
            reveal_strlit("id");
            reveal_strlit("jsonrpc");
            reveal_strlit("method");
            reveal_strlit("params");
            assert(crate::document::member_texts(members@) =~= seq![
                ("id"@, crate::text::decimal(id as nat)),
                ("jsonrpc"@, crate::document::string_text("1.0"@)),
                ("method"@, crate::document::string_text(method@)),
                ("params"@, crate::document::array_text(json_texts(params@))),
            ]);
        }
        let document = object_value(members);
        let body = match to_vec(&document) {
            Ok(body) => body,
            Err(error) => {
                return Err(request_error(&error));
            },
        };
        let headers: Vec<(String, String)> = vec![
            ("Authorization".to_string(), self.authorization.clone()),
            ("Content-Type".to_string(), "application/json".to_string()),
        ];
        let request = HttpRequest { url: self.url.clone(), headers, body, timeout: self.timeout };
        proof {
            assert(request@.headers =~= seq![
                ("Authorization"@, self@.authorization),
                ("Content-Type"@, "application/json"@),
            ]);
        }
        Ok(request)
    }

    /// The state that a request is sent in, and the sending of it.
    fn send<T>(&self, method: &str, params: &[serde_json::Value], retries: u16) -> (r: (
        CallState,
        CallAction<T>,
    ))
        ensures
            sends(*self, method@, json_texts(params@), retries, r.0@, r.1@),
    {
        let id = self.next_id();
        match self.request(id, method, params) {
            Ok(request) => (CallState::Sending { retries }, CallAction::Send(request)),
            Err(error) => (CallState::Finished, CallAction::Finish(Err(error))),
        }
    }

    /// Begins a call.
    pub fn start<T>(&self, method: &str, params: &[serde_json::Value]) -> (r: (
        CallState,
        CallAction<T>,
    ))
        ensures
            starts(*self, method@, json_texts(params@), r.0@, r.1@),
            r.0@.wf(self@),
    {
        proof {
            use_type_invariant(self);
        }
        match &self.request_limiter {
            Some(_) => (CallState::Acquiring, CallAction::Acquire),
            None => self.send(method, params, 0),
        }
    }

    /// Goes on with a call after `event`.
    pub fn step<T>(
        &self,
        method: &str,
        params: &[serde_json::Value],
        state: CallState,
        event: CallEvent<T>,
    ) -> (r: (CallState, CallAction<T>))
        requires
            state@.wf(self@),
            state@.expects(event),
        ensures
            steps(*self, method@, json_texts(params@), state@, event, r.0@, r.1@),
            r.0@.wf(self@),
    {
        match (state, event) {
            (CallState::Acquiring, CallEvent::Acquired(permitted)) => if permitted {
                self.send(method, params, 0)
            } else {
                finish(Err(ClientError::Other("request limiter closed".to_string())))
            },
            (CallState::Sending { retries }, CallEvent::SendFailed(error)) => {
                if !Self::is_error_recoverable(&error) {
                    return finish(Err(ClientError::from(error)));
                }
                let retries: u16 = retries + 1;
                if retries >= self.max_retries {
                    return finish(Err(ClientError::MaxRetriesExceeded(self.max_retries)));
                }
                (CallState::Waiting { retries }, CallAction::Wait(self.retry_interval))
            },
            (CallState::Sending { .. }, CallEvent::Replied(reply)) => match body_text(&reply.body) {
                Err(error) => finish(Err(parse_error(&error))),
                Ok(text) => if 200 <= reply.status_code && reply.status_code < 300 {
                    (CallState::ReadingResult, CallAction::ReadResult(text))
                } else {
                    (
                        CallState::ReadingFailure {
                            status_code: reply.status_code,
                            reason_phrase: reply.reason_phrase,
                            body: text.clone(),
                        },
                        CallAction::ReadFailure(text),
                    )
                },
            },
            (CallState::Waiting { retries }, CallEvent::Waited) => {
                self.send(method, params, retries)
            },
            (
                CallState::ReadingFailure { status_code, reason_phrase, body },
                CallEvent::FailureRead(response),
            ) => finish(
                Err(failed_reply(status_code, reason_phrase.as_str(), body.as_str(), response)),
            ),
            (CallState::ReadingResult, CallEvent::ResultRead(read)) => match read {
                Ok(response) => finish(read_response(response)),
                Err(error) => finish(Err(parse_error(&error))),
            },
            _ => unreached(),
        }
    }

    /// Returns `true` if the error is potentially recoverable and should be retried.
    pub fn is_error_recoverable(err: &bitreq::Error) -> (r: bool)
        ensures
            r == recoverable(*err),
    {
        match err {
            // Connection/network errors - might be recoverable
            bitreq::Error::AddressNotFound
            | bitreq::Error::IoError(_)
            | bitreq::Error::RustlsCreateConnection(_) => true,
            // Redirect errors - not retryable
            bitreq::Error::RedirectLocationMissing => false,
            bitreq::Error::InfiniteRedirectionLoop => false,
            bitreq::Error::TooManyRedirections => false,
            // Size limit errors - not retryable
            bitreq::Error::HeadersOverflow => false,
            bitreq::Error::StatusLineOverflow => false,
            bitreq::Error::BodyOverflow => false,
            // Protocol/parsing errors - might be recoverable
            bitreq::Error::MalformedChunkLength
            | bitreq::Error::MalformedChunkEnd
            | bitreq::Error::MalformedContentLength
            | bitreq::Error::InvalidUtf8InResponse => true,
            // UTF-8 in body - not retryable
            bitreq::Error::InvalidUtf8InBody(_) => false,
            // HTTPS not enabled - not retryable
            bitreq::Error::HttpsFeatureNotEnabled => false,
            // Other errors - not retryable
            bitreq::Error::Other(_) => false,
            // Non-exhaustive match fallback
            _ => false,
        }
    }
}

} // verus!
