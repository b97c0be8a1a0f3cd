//! The client: its settings, and what it does with a call.
use std::sync::atomic::{AtomicUsize, Ordering};
use std::sync::Arc;

use bitreq::Client as BitreqClient;
use vstd::prelude::*;

use crate::client::auth::{
    authorization_text, base64_fits, basic_authorization, credential_bytes, first_line_view, Auth,
    AuthView, FirstLine,
};
use crate::error::{ClientError, ClientErrorView};
use crate::text::displays_as;

pub mod answers;
pub mod auth;
pub mod call;
pub mod http;
pub mod laws;
pub mod limits;
pub mod numbers;
pub mod outcomes;

verus! {

/// This is an alias for the result type returned by the [`Client`].
pub type ClientResult<T> = Result<T, ClientError>;

/// The maximum number of retries for a request.
pub const DEFAULT_MAX_RETRIES: u16 = 3;

/// Interval between retries for a request in ms.
pub const DEFAULT_RETRY_INTERVAL_MS: u64 = 1_000;

/// The timeout for a request in seconds.
pub const DEFAULT_TIMEOUT_SECONDS: u64 = 30;

/// The default capacity for the HTTP client connection pool.
pub const DEFAULT_HTTP_CLIENT_CAPACITY: usize = 10;

/// The largest number of permits that a [`tokio::sync::Semaphore`] can be made with.
pub open spec fn max_permits() -> nat {
    (usize::MAX / 8) as nat
}

/// How many connections a [`bitreq::Client`] keeps at most.
pub uninterp spec fn pool_capacity(pool: BitreqClient) -> nat;

/// How many permits a [`tokio::sync::Semaphore`] was made with.
pub uninterp spec fn initial_permits(limiter: tokio::sync::Semaphore) -> nat;

/// `bitreq::Client::new`: a pool that keeps up to `capacity` connections.
pub assume_specification[ BitreqClient::new ](capacity: usize) -> (r: BitreqClient)
    ensures
        pool_capacity(r) == capacity,
;

/// `tokio::sync::Semaphore::new`: a semaphore with `permits` permits. It panics where `permits`
/// exceeds `Semaphore::MAX_PERMITS`, which is `usize::MAX >> 3`.
pub assume_specification[ tokio::sync::Semaphore::new ](permits: usize) -> (r:
    tokio::sync::Semaphore)
    requires
        permits <= max_permits(),
    ensures
        initial_permits(r) == permits,
;

/// Whether `counter` was made to start at zero.
pub open spec fn starts_at_zero(counter: Arc<AtomicUsize>) -> bool {
    call_ensures(AtomicUsize::new, (0usize,), *counter)
}

/// Whether `id` is a number that adding one to `counter` gives back.
pub open spec fn taken_from(counter: Arc<AtomicUsize>, id: usize) -> bool {
    call_ensures(AtomicUsize::fetch_add, (&*counter, 1usize, Ordering::AcqRel), id)
}

/// Whether `id` is a number that looking at `counter` gives back.
pub open spec fn read_from(counter: Arc<AtomicUsize>, id: usize) -> bool {
    call_ensures(AtomicUsize::load, (&*counter, Ordering::Relaxed), id)
}

/// A client for interacting with a `bitcoind` instance.
pub struct Client {
    /// The URL of the `bitcoind` instance.
    url: String,
    /// The authorization header value for Basic auth.
    authorization: String,
    /// The timeout for requests in seconds.
    timeout: u64,
    /// The ID of the current request, shared by all clones.
    id: Arc<AtomicUsize>,
    /// The maximum number of retries for a request.
    max_retries: u16,
    /// Interval between retries for a request in ms.
    retry_interval: u64,
    /// The HTTP client for making requests, used to reuse TCP connections across requests.
    http_client: BitreqClient,
    /// Optional application-level limit for concurrent JSON-RPC requests.
    max_in_flight_requests: Option<usize>,
    /// Semaphore enforcing [`Self::max_in_flight_requests`].
    request_limiter: Option<Arc<tokio::sync::Semaphore>>,
}

/// The settings of a [`Client`].
pub struct ClientView {
    pub url: Seq<char>,
    pub authorization: Seq<char>,
    pub timeout: u64,
    pub max_retries: u16,
    pub retry_interval: u64,
    pub pool_capacity: nat,
    pub max_in_flight_requests: Option<usize>,
    /// The permits that the limiter was made with, where there is one.
    pub limiter_permits: Option<nat>,
}

impl View for Client {
    type V = ClientView;

    closed spec fn view(&self) -> ClientView {
        ClientView {
            url: self.url@,
            authorization: self.authorization@,
            timeout: self.timeout,
            max_retries: self.max_retries,
            retry_interval: self.retry_interval,
            pool_capacity: pool_capacity(self.http_client),
            max_in_flight_requests: self.max_in_flight_requests,
            limiter_permits: match self.request_limiter {
                Some(limiter) => Some(initial_permits(*limiter)),
                None => None,
            },
        }
    }
}

impl ClientView {
    /// A request limit is enforced by a limiter with that many permits, at least one; without a
    /// limit there is no limiter.
    pub open spec fn wf(self) -> bool {
        match self.max_in_flight_requests {
            Some(limit) => 0 < limit && self.limiter_permits == Some(limit as nat),
            None => self.limiter_permits is None,
        }
    }
}

/// `Clone` of [`bitreq::Client`]: the clone is another handle on the same pool.
pub assume_specification[ <BitreqClient as Clone>::clone ](pool: &BitreqClient) -> (r: BitreqClient)
    ensures
        r == *pool,
;

impl Clone for Client {
    /// Another handle on the same client: it has the same settings, sends over the same
    /// connections, and takes its request numbers from the same counter and its permits from the
    /// same limiter.
    fn clone(&self) -> (r: Client)
        ensures
            r@ == self@,
            r.pool() == self.pool(),
            r.counter() == self.counter(),
            r.limiter() == self.limiter(),
    {
        proof {
            use_type_invariant(self);
        }
        let request_limiter = match &self.request_limiter {
            Some(limiter) => Some(limiter.clone()),
            None => None,
        };
        Client {
            url: self.url.clone(),
            authorization: self.authorization.clone(),
            timeout: self.timeout,
            id: self.id.clone(),
            max_retries: self.max_retries,
            retry_interval: self.retry_interval,
            http_client: self.http_client.clone(),
            max_in_flight_requests: self.max_in_flight_requests,
            request_limiter,
        }
    }
}

/// What a [`Client`] shows of itself for debugging: neither its credentials nor its connections.
#[derive(Clone, Debug, PartialEq, Eq)]
pub struct ClientSummary {
    pub url: String,
    pub timeout: u64,
    /// The number that the next request would have taken.
    pub id: usize,
    pub max_retries: u16,
    pub retry_interval: u64,
    pub max_in_flight_requests: Option<usize>,
}

/// Whether `summary` shows a client with these settings. The number of the next request is no
/// setting: [`read_from`] says where it comes from.
pub open spec fn summarizes(summary: ClientSummary, client: ClientView) -> bool {
    &&& summary.url@ == client.url
    &&& summary.timeout == client.timeout
    &&& summary.max_retries == client.max_retries
    &&& summary.retry_interval == client.retry_interval
    &&& summary.max_in_flight_requests == client.max_in_flight_requests
}

/// Takes up what converting a value to JSON gave.
pub fn to_value(created: Result<serde_json::Value, serde_json::Error>) -> (r: ClientResult<
    serde_json::Value,
>)
    ensures
        match created {
            Ok(value) => r == Ok::<serde_json::Value, ClientError>(value),
            Err(error) => {
                r matches Err(e) && exists|text: Seq<char>| #[trigger]
                    displays_as(&error, text) && e@ == ClientErrorView::Param(
                        "Error creating value: "@ + text,
                    )
            },
        },
{
    match created {
        Ok(value) => Ok(value),
        Err(error) => {
            let detail = error.to_string();
            let mut text = String::new();
            text.append("Error creating value: ");
            text.append(detail.as_str());
            proof {
                assert(displays_as(&error, detail@));
                assert(text@ =~= "Error creating value: "@ + detail@);
            }
            Err(ClientError::Param(text))
        },
    }
}

/// The settings of a client made with the given ones, the defaults standing in for those that are
/// left out.
pub open spec fn configured(
    url: Seq<char>,
    user: Seq<char>,
    password: Seq<char>,
    max_retries: Option<u16>,
    retry_interval: Option<u64>,
    timeout: Option<u64>,
    max_in_flight_requests: Option<usize>,
) -> ClientView {
    ClientView {
        url,
        authorization: authorization_text(user, password),
        timeout: timeout.unwrap_or(30),
        max_retries: max_retries.unwrap_or(3),
        retry_interval: retry_interval.unwrap_or(1000),
        pool_capacity: 10,
        max_in_flight_requests,
        limiter_permits: match max_in_flight_requests {
            Some(limit) => Some(limit as nat),
            None => None,
        },
    }
}

/// What making a client ends in: its settings, or the error.
pub open spec fn creation(
    url: Seq<char>,
    auth: AuthView,
    line: Option<Result<Seq<char>, Seq<char>>>,
    max_retries: Option<u16>,
    retry_interval: Option<u64>,
    timeout: Option<u64>,
    max_in_flight_requests: Option<usize>,
) -> Result<ClientView, ClientErrorView> {
    match auth.user_pass(line) {
        Err(error) => Err(error),
        Ok((user, password)) => if user.len() == 0 || password.len() == 0 {
            Err(ClientErrorView::MissingUserPassword)
        } else if max_in_flight_requests == Some(0usize) {
            Err(ClientErrorView::Param("max_in_flight_requests must be greater than 0"@))
        } else {
            Ok(
                configured(
                    url,
                    user,
                    password,
                    max_retries,
                    retry_interval,
                    timeout,
                    max_in_flight_requests,
                ),
            )
        },
    }
}

/// The machine limits that making a client meets: usable credentials whose encoding fits into
/// memory, and a request limit that a semaphore can hold.
pub open spec fn within_limits(
    auth: AuthView,
    line: Option<Result<Seq<char>, Seq<char>>>,
    max_in_flight_requests: Option<usize>,
) -> bool {
    auth.usable(line) matches Some((user, password)) ==> {
        &&& base64_fits(credential_bytes(user, password))
        &&& max_in_flight_requests matches Some(limit) ==> limit <= max_permits()
    }
}

impl Client {
    #[verifier::type_invariant]
    spec fn type_wf(self) -> bool {
        self@.wf()
    }

    /// The connections of the client.
    pub closed spec fn pool(self) -> BitreqClient {
        self.http_client
    }

    /// The limiter of the client.
    pub closed spec fn limiter(self) -> Option<Arc<tokio::sync::Semaphore>> {
        self.request_limiter
    }

    /// The counter that the client takes its request numbers from.
    pub closed spec fn counter(self) -> Arc<AtomicUsize> {
        self.id
    }

    /// Creates a new [`Client`] with the given URL, username, and password.
    ///
    /// `line` is what reading the first line of the file at [`Auth::cookie_path`] gave.
    pub fn new(
        url: String,
        auth: Auth,
        line: FirstLine,
        max_retries: Option<u16>,
        retry_interval: Option<u64>,
        timeout: Option<u64>,
    ) -> (r: ClientResult<Client>)
        requires
            within_limits(auth@, first_line_view(line), None),
        ensures
            match creation(
                url@,
                auth@,
                first_line_view(line),
                max_retries,
                retry_interval,
                timeout,
                None,
            ) {
                Ok(settings) => {
                    r matches Ok(client) && client@ == settings && starts_at_zero(client.counter())
                },
                Err(error) => r matches Err(e) && e@ == error,
            },
    {
        Self::new_with_max_in_flight_requests(
            url,
            auth,
            line,
            max_retries,
            retry_interval,
            timeout,
            None,
        )
    }

    /// Creates a new [`Client`] with an optional concurrent request limit.
    ///
    /// `Some(1)` serializes all JSON-RPC requests made through this client. `None` keeps the
    /// default behavior without adding an application-level concurrency limit. `line` is what
    /// reading the first line of the file at [`Auth::cookie_path`] gave.
    pub fn new_with_max_in_flight_requests(
        url: String,
        auth: Auth,
        line: FirstLine,
        max_retries: Option<u16>,
        retry_interval: Option<u64>,
        timeout: Option<u64>,
        max_in_flight_requests: Option<usize>,
    ) -> (r: ClientResult<Client>)
        requires
            within_limits(auth@, first_line_view(line), max_in_flight_requests),
        ensures
            match creation(
                url@,
                auth@,
                first_line_view(line),
                max_retries,
                retry_interval,
                timeout,
                max_in_flight_requests,
            ) {
                Ok(settings) => {
                    r matches Ok(client) && client@ == settings && starts_at_zero(client.counter())
                },
                Err(error) => r matches Err(e) && e@ == error,
            },
    {
        let (username, password) = match auth.get_user_pass(line) {
            Err(error) => {
                return Err(error);
            },
            Ok((Some(username), Some(password))) => (username, password),
            Ok(_) => {
                return Err(ClientError::MissingUserPassword);
            },
        };
        if username.as_str().is_empty() || password.as_str().is_empty() {
            return Err(ClientError::MissingUserPassword);
        }
        let authorization = basic_authorization(username.as_str(), password.as_str());

        let id = Arc::new(AtomicUsize::new(0));

        let max_retries: u16 = max_retries.unwrap_or(DEFAULT_MAX_RETRIES);
        let retry_interval: u64 = retry_interval.unwrap_or(DEFAULT_RETRY_INTERVAL_MS);
        let timeout: u64 = timeout.unwrap_or(DEFAULT_TIMEOUT_SECONDS);

        let http_client = BitreqClient::new(DEFAULT_HTTP_CLIENT_CAPACITY);
        let request_limiter = match max_in_flight_requests {
            Some(limit) => {
                if limit == 0 {
                    return Err(
                        ClientError::Param(
                            "max_in_flight_requests must be greater than 0".to_string(),
                        ),
                    );
                }
                Some(Arc::new(tokio::sync::Semaphore::new(limit)))
            },
            None => None,
        };
        Ok(
            Client {
                url,
                authorization,
                timeout,
                id,
                max_retries,
                retry_interval,
                http_client,
                max_in_flight_requests,
                request_limiter,
            },
        )
    }

    /// Takes the next request number. Clones of a client take theirs from the same counter, which
    /// starts at zero and goes up by one; what others have taken in between is not known here.
    fn next_id(&self) -> (id: usize)
        ensures
            taken_from(self.counter(), id),
    {
        self.id.fetch_add(1, Ordering::AcqRel)
    }

    /// The connections to send requests over.
    pub fn http_client(&self) -> (r: &BitreqClient)
        ensures
            *r == self.pool(),
            pool_capacity(*r) == self@.pool_capacity,
    {
        &self.http_client
    }

    /// The limiter to acquire a permit from before a call.
    pub fn request_limiter(&self) -> (r: Option<&Arc<tokio::sync::Semaphore>>)
        ensures
            match self@.max_in_flight_requests {
                Some(limit) => {
                    &&& r matches Some(limiter)
                    &&& self.limiter() == Some(*limiter)
                    &&& initial_permits(**limiter) == limit
                },
                None => r is None && self.limiter() is None,
            },
    {
        proof {
            use_type_invariant(self);
        }
        match &self.request_limiter {
            Some(limiter) => Some(limiter),
            None => None,
        }
    }

    /// What the client shows of itself for debugging.
    pub fn summary(&self) -> (r: ClientSummary)
        ensures
            summarizes(r, self@),
            read_from(self.counter(), r.id),
    {
        ClientSummary {
            url: self.url.clone(),
            timeout: self.timeout,
            id: self.id.load(Ordering::Relaxed),
            max_retries: self.max_retries,
            retry_interval: self.retry_interval,
            max_in_flight_requests: self.max_in_flight_requests,
        }
    }
}

} // verus!
