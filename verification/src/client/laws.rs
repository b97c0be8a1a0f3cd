//! What holds of every call, whatever the network and the server do.
use vstd::prelude::*;

use crate::client::auth::AuthView;
use crate::client::call::{
    failure_error, recoverable, request_view, response_result, starts, steps, CallActionView,
    CallEvent, CallStateView,
};
use crate::client::http::Response;
use crate::client::numbers::{new_clients_show_zero, Counting};
use crate::client::{creation, summarizes, taken_from, Client, ClientSummary, ClientView};
use crate::error::{transport_error_view, BitcoinRpcError, ClientErrorView};

verus! {

/// A call as far as it went: `events[i]` led from `states[i]` to `states[i + 1]`, and `actions[i]`
/// is what there was to do on entering `states[i]`.
pub struct Run<T> {
    pub states: Seq<CallStateView>,
    pub actions: Seq<CallActionView<T>>,
    pub events: Seq<CallEvent<T>>,
}

impl<T> Run<T> {
    /// Whether this is a call of `method` with `params` by `client`.
    pub open spec fn of(self, client: Client, method: Seq<char>, params: Seq<Seq<char>>) -> bool {
        &&& self.states.len() == self.events.len() + 1
        &&& self.actions.len() == self.events.len() + 1
        &&& starts(client, method, params, self.states[0], self.actions[0])
        &&& forall|i: int|
            0 <= i < self.events.len() ==> steps(
                client,
                method,
                params,
                self.states[i],
                #[trigger] self.events[i],
                self.states[i + 1],
                self.actions[i + 1],
            )
    }

    /// How often the request was sent among the first `n` actions.
    pub open spec fn attempts(self, n: nat) -> nat
        decreases n,
    {
        if n == 0 {
            0
        } else {
            self.attempts((n - 1) as nat) + if self.actions[n - 1] is Send {
                1nat
            } else {
                0nat
            }
        }
    }
}

/// How often a client sends a request at most: as often as its settings say, and once in any case.
pub open spec fn attempt_limit(client: ClientView) -> nat {
    if client.max_retries == 0 {
        1
    } else {
        client.max_retries as nat
    }
}

/// How many events a call takes before it sends its request for the first time.
spec fn lead(client: ClientView) -> int {
    if client.max_in_flight_requests is Some {
        1
    } else {
        0
    }
}

/// Where a run is after `i` events, as far as its state tells.
spec fn placed<T>(client: Client, run: Run<T>, i: int) -> bool {
    let attempts = run.attempts((i + 1) as nat);
    match run.states[i] {
        CallStateView::Acquiring => i == 0 && lead(client@) == 1 && attempts == 0 && run.actions[i]
            is Acquire,
        CallStateView::Sending { retries } => {
            &&& i == lead(client@) + 2 * retries
            &&& attempts == retries + 1
            &&& attempts <= attempt_limit(client@)
            &&& run.actions[i] is Send
        },
        CallStateView::Waiting { retries } => {
            &&& i == lead(client@) + 2 * retries - 1
            &&& attempts == retries
            &&& 0 < attempts < attempt_limit(client@)
            &&& run.actions[i] == CallActionView::<T>::Wait(client@.retry_interval)
        },
        CallStateView::ReadingFailure { .. } => {
            &&& i == lead(client@) + 2 * attempts - 1
            &&& 0 < attempts <= attempt_limit(client@)
            &&& run.actions[i] is ReadFailure
        },
        CallStateView::ReadingResult => {
            &&& i == lead(client@) + 2 * attempts - 1
            &&& 0 < attempts <= attempt_limit(client@)
            &&& run.actions[i] is ReadResult
        },
        CallStateView::Finished => {
            &&& i <= lead(client@) + 2 * attempts
            &&& attempts <= attempt_limit(client@)
            &&& run.actions[i] is Finish
        },
    }
}

/// Every place in a run is as its state tells.
proof fn lemma_placed<T>(
    client: Client,
    method: Seq<char>,
    params: Seq<Seq<char>>,
    run: Run<T>,
    i: int,
)
    requires
        run.of(client, method, params),
        0 <= i <= run.events.len(),
    ensures
        placed(client, run, i),
    decreases i,
{
    reveal_with_fuel(Run::attempts, 2);
    if i > 0 {
        lemma_placed(client, method, params, run, i - 1);
        let event = run.events[i - 1];
        assert(run.attempts((i + 1) as nat) == run.attempts(i as nat) + if run.actions[i] is Send {
            1nat
        } else {
            0nat
        });
    }
}

/// A call sends its request at most as often as the client's `max_retries` says, and once where
/// that is zero; and it comes to an end: there are at most two events to each attempt, and one more
/// for a permit.
pub proof fn attempts_are_limited<T>(
    client: Client,
    method: Seq<char>,
    params: Seq<Seq<char>>,
    run: Run<T>,
)
    requires
        run.of(client, method, params),
    ensures
        run.attempts(run.actions.len()) <= attempt_limit(client@),
        run.events.len() <= 2 * attempt_limit(client@) + 1,
{
    lemma_placed(client, method, params, run, run.events.len() as int);
}

/// Once a call is over nothing more happens: only the last action can be to finish.
pub proof fn finishing_is_last<T>(
    client: Client,
    method: Seq<char>,
    params: Seq<Seq<char>>,
    run: Run<T>,
    i: int,
)
    requires
        run.of(client, method, params),
        0 <= i < run.actions.len(),
        run.actions[i] is Finish,
    ensures
        i == run.events.len(),
{
    lemma_placed(client, method, params, run, i);
    if i < run.events.len() {
        let event = run.events[i];
    }
}

/// All requests of a call go to the same place with the same headers and carry the same method and
/// parameters. Only their numbers may differ, and each of them is taken from the client's counter.
pub proof fn requests_repeat_the_call<T>(
    client: Client,
    method: Seq<char>,
    params: Seq<Seq<char>>,
    run: Run<T>,
    i: int,
)
    requires
        run.of(client, method, params),
        0 <= i < run.actions.len(),
        run.actions[i] is Send,
    ensures
        exists|id: usize|
            taken_from(client.counter(), id) && run.actions[i] == CallActionView::<T>::Send(
                #[trigger] request_view(client@, id, method, params),
            ),
{
    lemma_placed(client, method, params, run, i);
    if i > 0 {
        let event = run.events[i - 1];
    }
}

/// A client with a request limit sends nothing before it has a permit. A client without one asks
/// for none.
pub proof fn permit_comes_first<T>(
    client: Client,
    method: Seq<char>,
    params: Seq<Seq<char>>,
    run: Run<T>,
    i: int,
)
    requires
        run.of(client, method, params),
        0 <= i < run.actions.len(),
    ensures
        client@.max_in_flight_requests is Some ==> run.actions[0] is Acquire && (run.actions[i] is Send
            ==> i > 0 && run.events[0] == CallEvent::<T>::Acquired(true)),
        client@.max_in_flight_requests is None ==> !(run.actions[i] is Acquire),
{
    lemma_placed(client, method, params, run, i);
    lemma_placed(client, method, params, run, 0);
    if run.events.len() > 0 {
        let event = run.events[0];
        lemma_placed(client, method, params, run, 1);
    }
    if i > 1 && client@.max_in_flight_requests is Some {
        let event = run.events[1];
    }
}

/// The request is sent again only after an attempt that failed recoverably, and after a pause of
/// `retry_interval`.
pub proof fn retries_wait<T>(
    client: Client,
    method: Seq<char>,
    params: Seq<Seq<char>>,
    run: Run<T>,
    i: int,
)
    requires
        run.of(client, method, params),
        0 <= i < run.actions.len(),
        run.actions[i] is Send,
        run.attempts(i as nat) > 0,
    ensures
        i >= 2,
        run.actions[i - 1] == CallActionView::<T>::Wait(client@.retry_interval),
        run.events[i - 2] matches CallEvent::SendFailed(error) && recoverable(error),
{
    lemma_placed(client, method, params, run, i);
    if i > 0 {
        let event = run.events[i - 1];
        lemma_placed(client, method, params, run, i - 1);
        if i > 1 {
            let earlier = run.events[i - 2];
            lemma_placed(client, method, params, run, i - 2);
        }
    }
}

/// An error that cannot be recovered from ends the call at once, as the client's error for it.
pub proof fn unrecoverable_errors_are_final<T>(
    client: Client,
    method: Seq<char>,
    params: Seq<Seq<char>>,
    run: Run<T>,
    i: int,
    error: bitreq::Error,
)
    requires
        run.of(client, method, params),
        0 <= i < run.events.len(),
        run.events[i] == CallEvent::<T>::SendFailed(error),
        !recoverable(error),
    ensures
        i + 1 == run.events.len(),
        exists|text: Seq<char>| #[trigger]
            crate::text::displays_as(&error, text) && run.actions[i + 1] == CallActionView::<
                T,
            >::Finish(Err(transport_error_view(error, text))),
{
    lemma_placed(client, method, params, run, i);
    let event = run.events[i];
    lemma_placed(client, method, params, run, i + 1);
    finishing_is_last(client, method, params, run, i + 1);
}

/// Whatever a reply says, the request is not sent again after it.
pub proof fn replies_end_the_attempts<T>(
    client: Client,
    method: Seq<char>,
    params: Seq<Seq<char>>,
    run: Run<T>,
    i: int,
    j: int,
)
    requires
        run.of(client, method, params),
        0 <= i < j < run.actions.len(),
        run.events[i] is Replied,
    ensures
        !(run.actions[j] is Send),
        run.events.len() <= i + 2,
{
    let event = run.events[i];
    lemma_placed(client, method, params, run, i);
    lemma_placed(client, method, params, run, i + 1);
    if i + 1 < run.events.len() {
        let next = run.events[i + 1];
        lemma_placed(client, method, params, run, i + 2);
        finishing_is_last(client, method, params, run, i + 2);
    }
    lemma_placed(client, method, params, run, j);
}

/// Whether every attempt of a run that came to something failed recoverably.
pub open spec fn all_fail<T>(run: Run<T>) -> bool {
    forall|i: int|
        0 <= i < run.events.len() && run.states[i] is Sending ==> (#[trigger] run.events[i] matches
            CallEvent::SendFailed(error) && recoverable(error))
}

/// A call that is over, and all of whose attempts failed recoverably, has used up its attempts and
/// ends in [`ClientErrorView::MaxRetriesExceeded`].
pub proof fn persistent_failure_exhausts_retries<T>(
    client: Client,
    method: Seq<char>,
    params: Seq<Seq<char>>,
    run: Run<T>,
)
    requires
        run.of(client, method, params),
        run.actions.last() is Finish,
        run.attempts(run.actions.len()) > 0,
        all_fail(run),
    ensures
        run.attempts(run.actions.len()) == attempt_limit(client@),
        run.actions.last() == CallActionView::<T>::Finish(
            Err(ClientErrorView::MaxRetriesExceeded(client@.max_retries)),
        ),
{
    let n = run.events.len() as int;
    lemma_placed(client, method, params, run, n);
    if n > 0 {
        let event = run.events[n - 1];
        lemma_placed(client, method, params, run, n - 1);
        if n > 1 {
            let earlier = run.events[n - 2];
            lemma_placed(client, method, params, run, n - 2);
        }
    }
}

/// A call ends in [`ClientErrorView::MaxRetriesExceeded`] only after it has used up its attempts,
/// and all of them failed recoverably.
pub proof fn exhausted_retries_mean_persistent_failure<T>(
    client: Client,
    method: Seq<char>,
    params: Seq<Seq<char>>,
    run: Run<T>,
    n: u16,
)
    requires
        run.of(client, method, params),
        run.actions.last() == CallActionView::<T>::Finish(
            Err(ClientErrorView::MaxRetriesExceeded(n)),
        ),
    ensures
        n == client@.max_retries,
        run.attempts(run.actions.len()) == attempt_limit(client@),
        all_fail(run),
{
    let last = run.events.len() as int;
    lemma_placed(client, method, params, run, last);
    let event = run.events[last - 1];
    lemma_placed(client, method, params, run, last - 1);
    assert forall|i: int|
        0 <= i < run.events.len() && run.states[i] is Sending implies (#[trigger] run.events[i] matches
        CallEvent::SendFailed(error) && recoverable(error)) by {
        lemma_placed(client, method, params, run, i);
        match run.events[i] {
            CallEvent::SendFailed(error) => if !recoverable(error) {
                unrecoverable_errors_are_final(client, method, params, run, i, error);
            },
            _ => {
                replies_end_the_attempts(client, method, params, run, i, i + 1);
                lemma_placed(client, method, params, run, i + 1);
            },
        }
    }
}

/// What the server reports as an error is what the call ends in, whether the status of the reply
/// says success or failure, and whatever else the response holds.
pub proof fn server_errors_are_reported<T>(
    status_code: i32,
    reason_phrase: Seq<char>,
    body: Seq<char>,
    response: Response<T>,
    error: BitcoinRpcError,
)
    requires
        response.error == Some(error),
    ensures
        response_result(response) == Err::<T, ClientErrorView>(
            ClientErrorView::Server(error.code, error.message@),
        ),
        failure_error(status_code, reason_phrase, body, Some(response)) == ClientErrorView::Server(
            error.code,
            error.message@,
        ),
{
}

/// A failure to connect is always tried again, a redirect never; and what is tried again is either
/// a failure to connect or a malformed response.
pub proof fn retried_errors(error: bitreq::Error, text: Seq<char>)
    ensures
        transport_error_view(error, text) is Connection ==> recoverable(error),
        transport_error_view(error, text) is HttpRedirect ==> !recoverable(error),
        recoverable(error) ==> transport_error_view(error, text) is Connection
            || transport_error_view(error, text) is MalformedResponse,
{
}

/// A client enforces the request limit it was made with: there is a limiter with that many permits,
/// which are at least one. Without a limit there is no limiter.
pub proof fn request_limits_are_enforced(
    url: Seq<char>,
    auth: AuthView,
    line: Option<Result<Seq<char>, Seq<char>>>,
    max_retries: Option<u16>,
    retry_interval: Option<u64>,
    timeout: Option<u64>,
    max_in_flight_requests: Option<usize>,
)
    ensures
        creation(url, auth, line, max_retries, retry_interval, timeout, max_in_flight_requests)
            matches Ok(client) ==> client.wf() && client.max_in_flight_requests
            == max_in_flight_requests,
        max_in_flight_requests == Some(0usize) ==> creation(
            url,
            auth,
            line,
            max_retries,
            retry_interval,
            timeout,
            max_in_flight_requests,
        ) is Err,
{
}

/// What a client shows for debugging says nothing about its credentials: clients that differ in
/// them alone show the same.
pub proof fn summary_hides_credentials(
    summary: ClientSummary,
    client: ClientView,
    authorization: Seq<char>,
)
    requires
        summarizes(summary, client),
    ensures
        summarizes(summary, ClientView { authorization, ..client }),
{
}

/// Clients made with the same settings and different credentials show the same for debugging, as
/// long as neither has taken a request number.
pub proof fn new_clients_show_the_same(
    url: Seq<char>,
    auths: (AuthView, AuthView),
    lines: (Option<Result<Seq<char>, Seq<char>>>, Option<Result<Seq<char>, Seq<char>>>),
    max_retries: Option<u16>,
    retry_interval: Option<u64>,
    timeout: Option<u64>,
    max_in_flight_requests: Option<usize>,
    clients: (Client, Client),
    countings: (Counting, Counting),
    summaries: (ClientSummary, ClientSummary),
)
    requires
        creation(
            url,
            auths.0,
            lines.0,
            max_retries,
            retry_interval,
            timeout,
            max_in_flight_requests,
        ) == Ok::<ClientView, ClientErrorView>(clients.0@),
        creation(
            url,
            auths.1,
            lines.1,
            max_retries,
            retry_interval,
            timeout,
            max_in_flight_requests,
        ) == Ok::<ClientView, ClientErrorView>(clients.1@),
        countings.0.of(clients.0.counter()),
        countings.1.of(clients.1.counter()),
        countings.0.values.len() == 1,
        countings.1.values.len() == 1,
        summarizes(summaries.0, clients.0@),
        summarizes(summaries.1, clients.1@),
        countings.0.shows(clients.0.counter(), summaries.0.id),
        countings.1.shows(clients.1.counter(), summaries.1.id),
    ensures
        summaries.0.url@ == summaries.1.url@,
        summaries.0.timeout == summaries.1.timeout,
        summaries.0.id == summaries.1.id,
        summaries.0.max_retries == summaries.1.max_retries,
        summaries.0.retry_interval == summaries.1.retry_interval,
        summaries.0.max_in_flight_requests == summaries.1.max_in_flight_requests,
{
    new_clients_show_zero(clients.0, countings.0, summaries.0.id);
    new_clients_show_zero(clients.1, countings.1, summaries.1.id);
}

} // verus!
