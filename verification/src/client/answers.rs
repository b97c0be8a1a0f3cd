//! What a call does next and what it ends in, for everything that can come of its last action.
//!
//! `call_ensures(f, args, r)` says that `r` is what `f` gave back for `args`.
use std::sync::atomic::{AtomicUsize, Ordering};

use vstd::prelude::*;
use vstd::utf8::{encode_utf8, valid_utf8};

use crate::client::auth::{Auth, FirstLine};
use crate::client::call::{
    failed_reply, read_response, request_view, sends, CallAction, CallActionView, CallEvent,
    CallState, CallStateView,
};
use crate::client::http::{body_text, utf8_error, HttpReply, HttpRequest, Response};
use crate::client::outcomes::{
    authorizes, clients_have_the_settings_given, gives, is_other, lemma_gives, lemma_posts, posts,
};
use crate::client::{taken_from, to_value, Client, ClientResult};
use crate::document::json_texts;
use crate::error::{BitcoinRpcError, ClientError};
use crate::text::displays_as;

verus! {

/// Whether `error` is what the server reported.
pub open spec fn is_reported(error: ClientError, reported: BitcoinRpcError) -> bool {
    error matches ClientError::Server(code, message) && code == reported.code && message@
        == reported.message@
}

/// A result that the server sent is what the call ends in, whatever the response's id is; an error
/// that it reported goes before a result; and that nothing was received is said only where there is
/// neither.
pub proof fn results_are_handed_on<T>(response: Response<T>, r: ClientResult<T>)
    requires
        call_ensures(read_response::<T>, (response,), r),
    ensures
        response.error is None ==> (response.result matches Some(value) ==> r == Ok::<
            T,
            ClientError,
        >(value)),
        response.error matches Some(error) ==> r is Err && is_reported(r->Err_0, error),
        response.error is None && response.result is None ==> r is Err && is_other(
            r->Err_0,
            "Empty data received"@,
        ),
{
}

/// Responses that differ in their id alone are answered alike.
pub proof fn ids_do_not_matter<T>(
    a: Response<T>,
    b: Response<T>,
    results: (ClientResult<T>, ClientResult<T>),
)
    requires
        call_ensures(read_response::<T>, (a,), results.0),
        call_ensures(read_response::<T>, (b,), results.1),
        a.result == b.result,
        a.error == b.error,
    ensures
        results.0 is Ok <==> results.1 is Ok,
        results.0 is Ok ==> results.0 == results.1,
{
    results_are_handed_on(a, results.0);
    results_are_handed_on(b, results.1);
}

/// Whether `error` says that a reply had this status, reason phrase and body. A status is a number
/// of sixteen bits.
pub open spec fn is_status(
    error: ClientError,
    status_code: i32,
    reason_phrase: Seq<char>,
    body: Seq<char>,
) -> bool {
    &&& error matches ClientError::Status(code, text) && text@ == reason_phrase + " | body: "@ + body
        && (status_code - code) % 0x1_0000 == 0 && (0 <= status_code < 0x1_0000 ==> code
        == status_code)
}

/// A reply that reports failure ends in the error that the server reported in it, and in its status
/// where it reported none.
pub proof fn failures_are_reported<R>(
    status_code: i32,
    reason_phrase: &str,
    body: &str,
    response: Option<Response<R>>,
    r: ClientError,
)
    requires
        call_ensures(failed_reply::<R>, (status_code, reason_phrase, body, response), r),
    ensures
        match response {
            Some(Response { error: Some(error), .. }) => is_reported(r, error),
            _ => is_status(r, status_code, reason_phrase@, body@),
        },
{
}

/// The text of a body is the one that is written as these bytes.
pub proof fn bodies_are_read_as_utf8(body: Vec<u8>, r: Result<String, bitreq::Error>)
    requires
        call_ensures(body_text, (&body,), r),
    ensures
        r matches Ok(text) ==> encode_utf8(text@) == body@,
        r is Ok <==> valid_utf8(body@),
        r matches Err(error) ==> error == bitreq::Error::InvalidUtf8InBody(utf8_error(body@)),
{
    if valid_utf8(body@) {
        vstd::utf8::decode_utf8_encode_utf8(body@);
    }
}

/// A value that was made is handed on as it is, and one that was not says why.
pub proof fn values_are_handed_on(
    created: Result<serde_json::Value, serde_json::Error>,
    r: ClientResult<serde_json::Value>,
)
    requires
        call_ensures(to_value, (created,), r),
    ensures
        created matches Ok(value) ==> r == Ok::<serde_json::Value, ClientError>(value),
        created matches Err(error) ==> (r matches Err(ClientError::Param(text)) && exists|
            detail: Seq<char>,
        | #[trigger]
            displays_as(&error, detail) && text@ == "Error creating value: "@ + detail),
{
}

/// What is tried again is what can go better the next time: no connection came about, or the reply
/// was cut up wrongly. Redirects, replies that are too large, bodies that are no text, and whatever
/// else can go wrong are not.
pub proof fn connection_and_framing_errors_are_tried_again(error: bitreq::Error, r: bool)
    requires
        call_ensures(Client::is_error_recoverable, (&error,), r),
    ensures
        error is AddressNotFound || error is IoError || error is RustlsCreateConnection ==> r,
        error is MalformedChunkLength || error is MalformedChunkEnd || error is MalformedContentLength
            || error is InvalidUtf8InResponse ==> r,
        r ==> error is AddressNotFound || error is IoError || error is RustlsCreateConnection
            || error is MalformedChunkLength || error is MalformedChunkEnd
            || error is MalformedContentLength || error is InvalidUtf8InResponse,
{
}

/// Whether `client_error` is of the kind that `error` is of, and shows its text.
pub open spec fn is_error_for(client_error: ClientError, error: bitreq::Error) -> bool {
    if error is AddressNotFound || error is IoError || error is RustlsCreateConnection {
        client_error matches ClientError::Connection(text) && displays_as(&error, text@)
    } else if error is RedirectLocationMissing || error is InfiniteRedirectionLoop
        || error is TooManyRedirections {
        client_error matches ClientError::HttpRedirect(text) && displays_as(&error, text@)
    } else if error is HeadersOverflow || error is StatusLineOverflow || error is BodyOverflow
        || error is MalformedChunkLength || error is MalformedChunkEnd
        || error is MalformedContentLength || error is InvalidUtf8InResponse
        || error is InvalidUtf8InBody {
        client_error matches ClientError::MalformedResponse(text) && displays_as(&error, text@)
    } else {
        client_error matches ClientError::Other(text) && displays_as(&error, text@)
    }
}

/// An error of the transport becomes one of its own kind, with its text.
pub proof fn transport_errors_keep_their_kind(error: bitreq::Error, r: ClientError)
    requires
        call_ensures(<ClientError as From<bitreq::Error>>::from, (error,), r),
    ensures
        is_error_for(r, error),
{
}

/// Whether `id` is a number that adding one to the client's counter gives back.
pub open spec fn is_drawn(client: Client, id: usize) -> bool {
    call_ensures(AtomicUsize::fetch_add, (&*client.counter(), 1usize, Ordering::AcqRel), id)
}

/// Whether a call goes on by sending its request, after `retries` attempts that failed: the request
/// carries the method and the parameters of the call, under a number from the client's counter.
pub open spec fn sends_the_call<T>(
    r: (CallState, CallAction<T>),
    client: Client,
    method: Seq<char>,
    params: Seq<serde_json::Value>,
    retries: u16,
) -> bool {
    &&& r.0 == CallState::Sending { retries }
    &&& r.1 matches CallAction::Send(request) && exists|id: usize| #[trigger]
        is_drawn(client, id) && posts(request, client, id, method, params)
}

/// Whether a call is over, with an error.
pub open spec fn fails<T>(r: (CallState, CallAction<T>)) -> bool {
    &&& r.0 is Finished
    &&& r.1 matches CallAction::Finish(result) && result is Err
}

/// The error that a call is over with.
pub open spec fn failure<T>(r: (CallState, CallAction<T>)) -> ClientError {
    r.1->Finish_0->Err_0
}

/// Sending, in the words above.
proof fn lemma_sends<T>(
    r: (CallState, CallAction<T>),
    client: Client,
    method: Seq<char>,
    params: Seq<serde_json::Value>,
    retries: u16,
)
    requires
        sends(client, method, json_texts(params), retries, r.0@, r.1@),
    ensures
        sends_the_call(r, client, method, params, retries),
{
    let id = choose|id: usize|
        taken_from(client.counter(), id) && r.1@ == CallActionView::<T>::Send(
            #[trigger] request_view(client@, id, method, json_texts(params)),
        );
    let request = r.1->Send_0;
    assert(request@ == request_view(client@, id, method, json_texts(params)));
    lemma_posts(request, client, id, method, params);
    assert(is_drawn(client, id));
}

/// A call begins by sending its request, or by asking for a permit where the client has a limit.
pub proof fn calls_begin<T>(
    client: Client,
    method: &str,
    params: &[serde_json::Value],
    r: (CallState, CallAction<T>),
)
    requires
        call_ensures(Client::start::<T>, (&client, method, params), r),
    ensures
        client@.max_in_flight_requests is None ==> sends_the_call(r, client, method@, params@, 0),
        client@.max_in_flight_requests is Some ==> r.0 is Acquiring && r.1 is Acquire,
{
    if client@.max_in_flight_requests is None {
        lemma_sends(r, client, method@, params@, 0);
    }
}

/// With a permit a call sends its request. Without one it ends, since the limiter is closed.
pub proof fn permits_let_calls_send<T>(
    client: Client,
    method: &str,
    params: &[serde_json::Value],
    permitted: bool,
    r: (CallState, CallAction<T>),
)
    requires
        call_ensures(
            Client::step::<T>,
            (&client, method, params, CallState::Acquiring, CallEvent::<T>::Acquired(permitted)),
            r,
        ),
    ensures
        permitted ==> sends_the_call(r, client, method@, params@, 0),
        !permitted ==> fails(r) && is_other(failure(r), "request limiter closed"@),
{
    if permitted {
        lemma_sends(r, client, method@, params@, 0);
    }
}

/// After the pause a call sends the same request again.
pub proof fn pauses_end_in_another_attempt<T>(
    client: Client,
    method: &str,
    params: &[serde_json::Value],
    retries: u16,
    r: (CallState, CallAction<T>),
)
    requires
        call_ensures(
            Client::step::<T>,
            (&client, method, params, CallState::Waiting { retries }, CallEvent::<T>::Waited),
            r,
        ),
    ensures
        sends_the_call(r, client, method@, params@, retries),
{
    lemma_sends(r, client, method@, params@, retries);
}

/// An attempt that failed is followed by a pause and another one, as long as the error can be
/// recovered from and fewer attempts were made than the client is set to make. The last attempt is
/// followed by the error that says how many there were, and an error that cannot be recovered from
/// ends the call as it is.
pub proof fn failed_attempts_are_repeated<T>(
    client: Client,
    method: &str,
    params: &[serde_json::Value],
    retries: u16,
    error: bitreq::Error,
    again: bool,
    r: (CallState, CallAction<T>),
)
    requires
        call_ensures(
            Client::step::<T>,
            (
                &client,
                method,
                params,
                CallState::Sending { retries },
                CallEvent::<T>::SendFailed(error),
            ),
            r,
        ),
        call_ensures(Client::is_error_recoverable, (&error,), again),
        retries < u16::MAX,
    ensures
        !again ==> fails(r) && is_error_for(failure(r), error),
        again && retries + 1 < client@.max_retries ==> r.0 == (CallState::Waiting {
            retries: (retries + 1) as u16,
        }) && r.1 == CallAction::<T>::Wait(client@.retry_interval),
        again && retries + 1 >= client@.max_retries ==> fails(r) && (failure(r) matches
            ClientError::MaxRetriesExceeded(n) && n == client@.max_retries),
{
}

/// A reply whose body is no text ends the call. Any other is read: as a result where its status says
/// success, and as a failure otherwise. What is read is the whole body.
pub proof fn replies_are_read<T>(
    client: Client,
    method: &str,
    params: &[serde_json::Value],
    retries: u16,
    reply: HttpReply,
    r: (CallState, CallAction<T>),
)
    requires
        call_ensures(
            Client::step::<T>,
            (
                &client,
                method,
                params,
                CallState::Sending { retries },
                CallEvent::<T>::Replied(reply),
            ),
            r,
        ),
    ensures
        !valid_utf8(reply.body@) ==> fails(r) && (failure(r) matches ClientError::Parse(text)
            && displays_as(&bitreq::Error::InvalidUtf8InBody(utf8_error(reply.body@)), text@)),
        valid_utf8(reply.body@) && 200 <= reply.status_code <= 299 ==> r.0 is ReadingResult && (r.1
            matches CallAction::ReadResult(text) && encode_utf8(text@) == reply.body@),
        valid_utf8(reply.body@) && !(200 <= reply.status_code <= 299) ==> (r.1 matches
            CallAction::ReadFailure(text) && encode_utf8(text@) == reply.body@ && (r.0 matches
            CallState::ReadingFailure { status_code, reason_phrase, body } && status_code
            == reply.status_code && reason_phrase@ == reply.reason_phrase@ && body@ == text@)),
{
    if valid_utf8(reply.body@) {
        vstd::utf8::decode_utf8_encode_utf8(reply.body@);
    }
}

/// A reply that reports failure ends the call in the error that the server reported in it, and in
/// its status, reason phrase and body where it reported none.
pub proof fn failures_end_the_call<T>(
    client: Client,
    method: &str,
    params: &[serde_json::Value],
    status_code: i32,
    reason_phrase: String,
    body: String,
    response: Option<Response<serde_json::Value>>,
    r: (CallState, CallAction<T>),
)
    requires
        call_ensures(
            Client::step::<T>,
            (
                &client,
                method,
                params,
                CallState::ReadingFailure { status_code, reason_phrase, body },
                CallEvent::<T>::FailureRead(response),
            ),
            r,
        ),
    ensures
        fails(r),
        match response {
            Some(Response { error: Some(error), .. }) => is_reported(failure(r), error),
            _ => is_status(failure(r), status_code, reason_phrase@, body@),
        },
{
}

/// A call ends in the result that the server sent, for every response that holds one and no error.
/// It ends in the error that the server reported where there is one, and says that nothing was
/// received only where there is neither. Where the body is no response, it says why.
pub proof fn calls_end_in_the_result_sent<T>(
    client: Client,
    method: &str,
    params: &[serde_json::Value],
    read: Result<Response<T>, serde_json::Error>,
    r: (CallState, CallAction<T>),
)
    requires
        call_ensures(
            Client::step::<T>,
            (&client, method, params, CallState::ReadingResult, CallEvent::<T>::ResultRead(read)),
            r,
        ),
    ensures
        r.0 is Finished,
        r.1 is Finish,
        read matches Ok(response) ==> {
            &&& response.error is None ==> (response.result matches Some(value) ==> r.1
                == CallAction::<T>::Finish(Ok(value)))
            &&& response.error matches Some(error) ==> fails(r) && is_reported(failure(r), error)
            &&& response.error is None && response.result is None ==> fails(r) && is_other(
                failure(r),
                "Empty data received"@,
            )
        },
        read matches Err(error) ==> fails(r) && (failure(r) matches ClientError::Parse(text)
            && displays_as(&error, text@)),
{
}

/// The settings that a client was made with reach its requests: they go to its URL, wait as long as
/// its timeout says, and carry its username and password.
pub proof fn settings_reach_the_requests(
    url: String,
    auth: Auth,
    line: FirstLine,
    max_retries: Option<u16>,
    retry_interval: Option<u64>,
    seconds: u64,
    limit: Option<usize>,
    user: Seq<char>,
    password: Seq<char>,
    client: Client,
    id: usize,
    method: &str,
    params: &[serde_json::Value],
    r: ClientResult<HttpRequest>,
)
    requires
        gives(auth, line, user, password),
        user.len() > 0,
        password.len() > 0,
        limit != Some(0usize),
        call_ensures(
            Client::new_with_max_in_flight_requests,
            (url, auth, line, max_retries, retry_interval, Some(seconds), limit),
            Ok(client),
        ),
        call_ensures(Client::request, (&client, id, method, params), r),
    ensures
        r matches Ok(request) && request.url@ == url@ && request.timeout == seconds
            && request.headers@.len() == 2 && authorizes(request.headers@[0].1@, user, password),
{
    clients_have_the_settings_given(
        url,
        auth,
        line,
        max_retries,
        retry_interval,
        Some(seconds),
        limit,
        user,
        password,
        Ok(client),
    );
    crate::client::outcomes::requests_carry_the_call(client, id, method, params, r);
}

/// A call can go on from every state that it can be in, with everything that can come of what it
/// does there.
pub proof fn calls_can_go_on<T>(
    client: Client,
    method: &str,
    params: &[serde_json::Value],
    retries: u16,
    permitted: bool,
    error: bitreq::Error,
    reply: HttpReply,
    status_code: i32,
    reason_phrase: String,
    body: String,
    failure_read: Option<Response<serde_json::Value>>,
    result_read: Result<Response<T>, serde_json::Error>,
)
    ensures
        call_requires(Client::start::<T>, (&client, method, params)),
        call_requires(
            Client::step::<T>,
            (&client, method, params, CallState::Acquiring, CallEvent::<T>::Acquired(permitted)),
        ),
        retries == 0 || retries < client@.max_retries ==> call_requires(
            Client::step::<T>,
            (
                &client,
                method,
                params,
                CallState::Sending { retries },
                CallEvent::<T>::SendFailed(error),
            ),
        ),
        retries == 0 || retries < client@.max_retries ==> call_requires(
            Client::step::<T>,
            (
                &client,
                method,
                params,
                CallState::Sending { retries },
                CallEvent::<T>::Replied(reply),
            ),
        ),
        0 < retries < client@.max_retries ==> call_requires(
            Client::step::<T>,
            (&client, method, params, CallState::Waiting { retries }, CallEvent::<T>::Waited),
        ),
        call_requires(
            Client::step::<T>,
            (
                &client,
                method,
                params,
                CallState::ReadingFailure { status_code, reason_phrase, body },
                CallEvent::<T>::FailureRead(failure_read),
            ),
        ),
        call_requires(
            Client::step::<T>,
            (
                &client,
                method,
                params,
                CallState::ReadingResult,
                CallEvent::<T>::ResultRead(result_read),
            ),
        ),
{
}

/// A request can be written for every number, method and list of parameters.
pub proof fn every_call_can_be_requested(
    client: Client,
    id: usize,
    method: &str,
    params: &[serde_json::Value],
)
    ensures
        call_requires(Client::request, (&client, id, method, params)),
{
}

/// A client can be made with all settings, as long as its limit is one that a semaphore can have and
/// its credentials are not of a length beyond all use.
pub proof fn clients_can_be_made(
    url: String,
    auth: Auth,
    line: FirstLine,
    max_retries: Option<u16>,
    retry_interval: Option<u64>,
    timeout: Option<u64>,
    limit: Option<usize>,
    user: Seq<char>,
    password: Seq<char>,
)
    requires
        gives(auth, line, user, password),
        user.len() + password.len() < 0x1000_0000,
        limit matches Some(n) ==> n <= usize::MAX / 8,
    ensures
        call_requires(
            Client::new_with_max_in_flight_requests,
            (url, auth, line, max_retries, retry_interval, timeout, limit),
        ),
        call_requires(Client::new, (url, auth, line, max_retries, retry_interval, timeout)),
{
    lemma_gives(auth, line, user, password);
    crate::client::auth::short_credentials_fit(user, password);
}

} // verus!
