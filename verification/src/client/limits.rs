//! What a request limit means for calls that go on at the same time.
use vstd::prelude::*;

use crate::client::call::{starts, steps, CallActionView, CallEvent, CallStateView};
use crate::client::laws::Run;
use crate::client::{initial_permits, Client, ClientView};
use crate::error::ClientErrorView;

verus! {

/// Whether a call of a client with a request limit has its permit: it was given one, and is not
/// over. Retries count, and so do the pauses between them.
pub open spec fn under_way(state: CallStateView) -> bool {
    !(state is Acquiring) && !(state is Finished)
}

/// Whether a call can go from `state` to `next`, whatever comes of the action in between.
pub open spec fn moves(state: CallStateView, next: CallStateView) -> bool {
    match state {
        CallStateView::Acquiring => next == CallStateView::Sending { retries: 0 }
            || next is Finished,
        CallStateView::Sending { .. } => next is Waiting || next is ReadingFailure
            || next is ReadingResult || next is Finished,
        CallStateView::Waiting { retries } => next == CallStateView::Sending { retries },
        CallStateView::ReadingFailure { .. } | CallStateView::ReadingResult => next is Finished,
        CallStateView::Finished => false,
    }
}

/// How many of the calls are under way.
pub open spec fn calls_under_way(calls: Seq<CallStateView>) -> nat
    decreases calls.len(),
{
    if calls.len() == 0 {
        0
    } else {
        calls_under_way(calls.drop_last()) + if under_way(calls.last()) {
            1nat
        } else {
            0nat
        }
    }
}

/// Whether the calls of a client and its clones can get from `before` to `after` at once: one more
/// call begins, one call moves on, or one is given up by its caller and is over. Their limiter was
/// made with `permits` permits, each of which one call holds while it is under way, so it gives one
/// only while it has not given them all.
pub open spec fn follows(
    permits: nat,
    before: Seq<CallStateView>,
    after: Seq<CallStateView>,
) -> bool {
    ||| after == before.push(CallStateView::Acquiring)
    ||| exists|call: int|
        {
            &&& 0 <= call < before.len()
            &&& after == #[trigger] before.update(call, after[call])
            &&& moves(before[call], after[call]) || after[call] is Finished
            &&& before[call] is Acquiring && under_way(after[call]) ==> calls_under_way(before)
                < permits
        }
}

/// The calls made through a client and its clones over time: `moments[k][call]` is the state of a
/// call at moment `k`.
pub struct History {
    pub moments: Seq<Seq<CallStateView>>,
}

impl History {
    /// Whether moment `k + 1` can come right after moment `k`.
    pub open spec fn goes_on(self, permits: nat, k: int) -> bool {
        follows(permits, self.moments[k], self.moments[k + 1])
    }

    /// Whether a client with these settings and its clones can come to make these calls.
    pub open spec fn of(self, client: ClientView) -> bool {
        &&& self.moments.len() > 0
        &&& self.moments[0].len() == 0
        &&& client.limiter_permits matches Some(permits) && forall|k: int|
            0 <= k < self.moments.len() - 1 ==> #[trigger] self.goes_on(permits, k)
    }
}

/// The calls of a client with a request limit begin without a permit, as those of a [`History`] do.
pub proof fn limited_calls_begin_without_a_permit<T>(
    client: Client,
    method: Seq<char>,
    params: Seq<Seq<char>>,
    state: CallStateView,
    action: CallActionView<T>,
)
    requires
        starts(client, method, params, state, action),
        client@.max_in_flight_requests is Some,
    ensures
        state == CallStateView::Acquiring,
        action == CallActionView::<T>::Acquire,
{
}

/// There is a limiter exactly where there is a limit, and it was made with as many permits. A call
/// of a client without one sends at once. A call of a client with one asks it for a permit: while
/// the limiter is open it gives one, and the call sends; only once it is closed it gives none, and
/// the call ends in an error.
pub proof fn permits_follow_the_limit<T>(
    client: Client,
    method: Seq<char>,
    params: Seq<Seq<char>>,
    run: Run<T>,
    closed: bool,
)
    requires
        client@.wf(),
        run.of(client, method, params),
        run.events.len() > 0,
        run.events[0] matches CallEvent::Acquired(permitted) ==> permitted == !closed,
    ensures
        match client@.max_in_flight_requests {
            None => client.limiter() is None && run.actions[0] is Send,
            Some(limit) => {
                &&& client.limiter() matches Some(limiter) && initial_permits(*limiter) == limit
                &&& run.actions[0] is Acquire
                &&& !closed ==> run.actions[1] is Send
                &&& closed ==> run.actions[1] == CallActionView::<T>::Finish(
                    Err(ClientErrorView::Other("request limiter closed"@)),
                )
            },
        },
{
    let event = run.events[0];
}

/// A call goes from state to state as those of a [`History`] do: it gets under way with a permit
/// and not otherwise, sends only while it is under way, and is under way until it ends, be it with
/// a result or with an error.
pub proof fn permits_are_held_to_the_end<T>(
    client: Client,
    method: Seq<char>,
    params: Seq<Seq<char>>,
    state: CallStateView,
    event: CallEvent<T>,
    next: CallStateView,
    action: CallActionView<T>,
)
    requires
        steps(client, method, params, state, event, next, action),
    ensures
        moves(state, next),
        state is Acquiring ==> (under_way(next) <==> event == CallEvent::<T>::Acquired(true)),
        action is Send ==> under_way(next),
        under_way(state) ==> (under_way(next) <==> !(action is Finish)),
{
}

/// Counting after one call has changed its state.
proof fn lemma_update(calls: Seq<CallStateView>, call: int, next: CallStateView)
    requires
        0 <= call < calls.len(),
    ensures
        calls_under_way(calls.update(call, next)) == calls_under_way(calls) - (if under_way(
            calls[call],
        ) {
            1int
        } else {
            0int
        }) + (if under_way(next) {
            1int
        } else {
            0int
        }),
    decreases calls.len(),
{
    let updated = calls.update(call, next);
    if call == calls.len() - 1 {
        assert(updated.drop_last() =~= calls.drop_last());
    } else {
        lemma_update(calls.drop_last(), call, next);
        assert(updated.drop_last() =~= calls.drop_last().update(call, next));
    }
}

/// A call that is under way counts.
proof fn lemma_one_counts(calls: Seq<CallStateView>, call: int)
    requires
        0 <= call < calls.len(),
        under_way(calls[call]),
    ensures
        calls_under_way(calls) >= 1,
    decreases calls.len(),
{
    if call < calls.len() - 1 {
        lemma_one_counts(calls.drop_last(), call);
    }
}

/// Two calls that are under way count twice.
proof fn lemma_two_count(calls: Seq<CallStateView>, first: int, second: int)
    requires
        0 <= first < second < calls.len(),
        under_way(calls[first]),
        under_way(calls[second]),
    ensures
        calls_under_way(calls) >= 2,
    decreases calls.len(),
{
    if second < calls.len() - 1 {
        lemma_two_count(calls.drop_last(), first, second);
    } else {
        lemma_one_counts(calls.drop_last(), first);
    }
}

/// At every moment at most as many calls of a client and its clones are under way as its request
/// limit says, retries and the pauses between them included.
pub proof fn calls_under_way_are_limited(
    client: ClientView,
    limit: usize,
    history: History,
    k: int,
)
    requires
        client.wf(),
        client.max_in_flight_requests == Some(limit),
        history.of(client),
        0 <= k < history.moments.len(),
    ensures
        calls_under_way(history.moments[k]) <= limit,
    decreases k,
{
    if k > 0 {
        calls_under_way_are_limited(client, limit, history, k - 1);
        let before = history.moments[k - 1];
        let after = history.moments[k];
        assert(client.limiter_permits == Some(limit as nat));
        assert(history.goes_on(client.limiter_permits->Some_0, k - 1));
        if after == before.push(CallStateView::Acquiring) {
            assert(after.drop_last() =~= before);
        } else {
            let call = choose|call: int|
                {
                    &&& 0 <= call < before.len()
                    &&& after == #[trigger] before.update(call, after[call])
                    &&& moves(before[call], after[call]) || after[call] is Finished
                    &&& before[call] is Acquiring && under_way(after[call]) ==> calls_under_way(
                        before,
                    ) < limit
                };
            lemma_update(before, call, after[call]);
        }
    }
}

/// A call that has begun stays, does not get under way again once it is over, and does not go back
/// to wait for a permit.
proof fn lemma_calls_go_forward(
    client: ClientView,
    history: History,
    call: int,
    j: int,
    k: int,
)
    requires
        history.of(client),
        0 <= j <= k < history.moments.len(),
        0 <= call < history.moments[j].len(),
    ensures
        call < history.moments[k].len(),
        history.moments[j][call] is Finished ==> history.moments[k][call] is Finished,
        !(history.moments[j][call] is Acquiring) ==> !(history.moments[k][call] is Acquiring),
    decreases k - j,
{
    if j < k {
        lemma_calls_go_forward(client, history, call, j, k - 1);
        assert(history.goes_on(client.limiter_permits->Some_0, k - 1));
    }
}

/// `Some(1)` serializes the requests: while one call is under way, from its first request to its
/// end, no other call is, so that the requests of two calls never interleave.
pub proof fn a_limit_of_one_keeps_calls_apart(
    client: ClientView,
    history: History,
    call: int,
    other: int,
    j: int,
    m: int,
    k: int,
)
    requires
        client.wf(),
        client.max_in_flight_requests == Some(1usize),
        history.of(client),
        0 <= j <= m <= k < history.moments.len(),
        0 <= call < history.moments[j].len(),
        under_way(history.moments[j][call]),
        under_way(history.moments[k][call]),
        0 <= other < history.moments[m].len(),
        other != call,
    ensures
        under_way(history.moments[m][call]),
        !under_way(history.moments[m][other]),
{
    let calls = history.moments[m];
    lemma_calls_go_forward(client, history, call, j, m);
    lemma_calls_go_forward(client, history, call, m, k);
    calls_under_way_are_limited(client, 1, history, m);
    if under_way(calls[other]) {
        if call < other {
            lemma_two_count(calls, call, other);
        } else {
            lemma_two_count(calls, other, call);
        }
    }
}

} // verus!
