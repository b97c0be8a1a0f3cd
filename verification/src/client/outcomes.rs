//! What the operations of a client give back for what they are given.
//!
//! `call_ensures(f, args, r)` says that `r` is what `f` gave back for `args`.
use std::sync::atomic::{AtomicUsize, Ordering};
use std::sync::Arc;

use vstd::prelude::*;
use vstd::utf8::{decode_utf8, encode_utf8, valid_utf8};

use crate::client::auth::{
    authorization_text, base64_bytes, base64_is_read_back, basic_authorization, cookie_round_trips,
    credential_bytes, first_line_view, Auth, FirstLine,
};
use crate::client::call::request_view;
use crate::client::http::{rpc_text, HttpRequest};
use crate::client::{initial_permits, Client, ClientResult, ClientSummary};
use crate::document::{comma_separated, escaped, json_text, json_texts, string_text};
use crate::error::{ClientError, ClientErrorView};
use crate::reading::{
    lists, lists_are_told_apart, lists_are_written_in_full, numerals_are_read_back, stands_alone,
    strings_are_read_back, unescaped, writes_number,
};
use crate::text::decimal;

verus! {

/// Whether `auth`, with the first line of the cookie file where it names one, gives this username
/// and this password. The username in a cookie file ends at the first colon.
pub open spec fn gives(
    auth: Auth,
    line: FirstLine,
    user: Seq<char>,
    password: Seq<char>,
) -> bool {
    match auth {
        Auth::UserPass(u, p) => u@ == user && p@ == password,
        Auth::CookieFile(_) => {
            &&& line matches Some(Ok(text)) && text@ == user + seq![':'] + password
            &&& !user.contains(':')
        },
    }
}

/// Whether `auth` names a cookie file that is empty or whose first line holds no colon.
pub open spec fn names_invalid_cookie(auth: Auth, line: FirstLine) -> bool {
    auth is CookieFile && match line {
        None => true,
        Some(Ok(text)) => !text@.contains(':'),
        Some(Err(_)) => false,
    }
}

/// Whether `error` is the error of that kind with that text.
pub open spec fn is_other(error: ClientError, text: Seq<char>) -> bool {
    error matches ClientError::Other(t) && t@ == text
}

/// Credentials that are given are found.
pub(crate) proof fn lemma_gives(auth: Auth, line: FirstLine, user: Seq<char>, password: Seq<char>)
    requires
        gives(auth, line, user, password),
    ensures
        auth@.user_pass(first_line_view(line)) == Ok::<_, ClientErrorView>((user, password)),
{
    reveal_strlit(":");
    assert(":"@ =~= seq![':']);
    if auth is CookieFile {
        cookie_round_trips(user, password);
    }
}

/// The username and the password that are given are the ones that are used, however long they are
/// and whatever the password holds.
pub proof fn credentials_are_taken_as_given(
    auth: Auth,
    line: FirstLine,
    user: Seq<char>,
    password: Seq<char>,
    r: Result<(Option<String>, Option<String>), ClientError>,
)
    requires
        call_ensures(Auth::get_user_pass, (auth, line), r),
        gives(auth, line, user, password),
    ensures
        r matches Ok((Some(u), Some(p))) && u@ == user && p@ == password,
{
    lemma_gives(auth, line, user, password);
}

/// Credentials cannot be had in two cases only: a cookie file is invalid, or reading it failed. It
/// is invalid where it is empty or its first line holds no colon, and not otherwise.
pub proof fn credentials_fail_without_a_cookie(
    auth: Auth,
    line: FirstLine,
    r: Result<(Option<String>, Option<String>), ClientError>,
)
    requires
        call_ensures(Auth::get_user_pass, (auth, line), r),
    ensures
        names_invalid_cookie(auth, line) ==> r is Err && is_other(r->Err_0, "Invalid cookie file"@),
        auth is CookieFile ==> (line matches Some(Err(message)) ==> r is Err && is_other(
            r->Err_0,
            message@,
        )),
        r is Err ==> auth is CookieFile && (names_invalid_cookie(auth, line) || line matches Some(
            Err(_),
        )),
{
    if let Some(Ok(text)) = line {
        text@.index_of_first_ensures(':');
    }
}

/// The cookie file to read is the one that was named, and there is none for a username and a
/// password.
pub proof fn the_named_cookie_file_is_read(auth: Auth, r: Option<&std::path::PathBuf>)
    requires
        call_ensures(Auth::cookie_path, (&auth,), r),
    ensures
        auth matches Auth::CookieFile(path) ==> r == Some(&path),
        auth is UserPass ==> r is None,
{
}

/// Whether `header` authorizes as `user` with `password`: behind the word `Basic` it is base64 of
/// the two with a colon between them.
pub open spec fn authorizes(header: Seq<char>, user: Seq<char>, password: Seq<char>) -> bool {
    &&& header.len() >= 6
    &&& header.take(6) == "Basic "@
    &&& base64_bytes(header.skip(6)) == encode_utf8(user + seq![':'] + password)
}

/// The text of the header carries the username and the password.
proof fn lemma_header(user: Seq<char>, password: Seq<char>)
    ensures
        authorizes(authorization_text(user, password), user, password),
{
    reveal_strlit(":");
    reveal_strlit("Basic ");
    assert(":"@ =~= seq![':']);
    let bytes = credential_bytes(user, password);
    let header = authorization_text(user, password);
    base64_is_read_back(bytes);
    assert(header.take(6) =~= "Basic "@);
    assert(header.skip(6) =~= crate::client::auth::base64_text(bytes));
}

/// The username and the password can be read back from the `Authorization` header.
pub proof fn headers_carry_the_credentials(user: &str, password: &str, r: String)
    requires
        call_ensures(basic_authorization, (user, password), r),
    ensures
        authorizes(r@, user@, password@),
{
    lemma_header(user@, password@);
}

/// Whether `client` has the settings that it was made with, where those that were left out are the
/// defaults: three attempts, a pause of one second, and thirty seconds for a reply.
pub open spec fn keeps_settings(
    client: Client,
    url: Seq<char>,
    user: Seq<char>,
    password: Seq<char>,
    max_retries: Option<u16>,
    retry_interval: Option<u64>,
    timeout: Option<u64>,
    limit: Option<usize>,
) -> bool {
    &&& client@.url == url
    &&& authorizes(client@.authorization, user, password)
    &&& match max_retries {
        Some(n) => client@.max_retries == n,
        None => client@.max_retries == 3,
    }
    &&& match retry_interval {
        Some(ms) => client@.retry_interval == ms,
        None => client@.retry_interval == 1000,
    }
    &&& match timeout {
        Some(seconds) => client@.timeout == seconds,
        None => client@.timeout == 30,
    }
    &&& client@.max_in_flight_requests == limit
    &&& match limit {
        Some(n) => client@.limiter_permits == Some(n as nat),
        None => client@.limiter_permits is None,
    }
    &&& client@.pool_capacity == 10
    &&& call_ensures(AtomicUsize::new, (0usize,), *client.counter())
}

/// Whether `r` is what making a client with these credentials, settings and limit comes to.
pub open spec fn is_made_as_asked(
    r: ClientResult<Client>,
    url: Seq<char>,
    user: Seq<char>,
    password: Seq<char>,
    max_retries: Option<u16>,
    retry_interval: Option<u64>,
    timeout: Option<u64>,
    limit: Option<usize>,
) -> bool {
    if user.len() == 0 || password.len() == 0 {
        r matches Err(error) && error is MissingUserPassword
    } else if limit == Some(0usize) {
        r matches Err(ClientError::Param(text)) && text@
            == "max_in_flight_requests must be greater than 0"@
    } else {
        r matches Ok(client) && keeps_settings(
            client,
            url,
            user,
            password,
            max_retries,
            retry_interval,
            timeout,
            limit,
        )
    }
}

/// A client has every setting that is given for it, for every value of it; a default stands in only
/// for one that is not given. With a username and a password that are not empty, and a limit that is
/// not zero, there is a client.
pub proof fn clients_have_the_settings_given(
    url: String,
    auth: Auth,
    line: FirstLine,
    max_retries: Option<u16>,
    retry_interval: Option<u64>,
    timeout: Option<u64>,
    limit: Option<usize>,
    user: Seq<char>,
    password: Seq<char>,
    r: ClientResult<Client>,
)
    requires
        call_ensures(
            Client::new_with_max_in_flight_requests,
            (url, auth, line, max_retries, retry_interval, timeout, limit),
            r,
        ),
        gives(auth, line, user, password),
    ensures
        is_made_as_asked(
            r,
            url@,
            user,
            password,
            max_retries,
            retry_interval,
            timeout,
            limit,
        ),
{
    lemma_gives(auth, line, user, password);
    lemma_header(user, password);
}

/// A client that is made without a limit has every other setting that is given for it, and no limit.
pub proof fn clients_have_no_limit_by_default(
    url: String,
    auth: Auth,
    line: FirstLine,
    max_retries: Option<u16>,
    retry_interval: Option<u64>,
    timeout: Option<u64>,
    user: Seq<char>,
    password: Seq<char>,
    r: ClientResult<Client>,
)
    requires
        call_ensures(Client::new, (url, auth, line, max_retries, retry_interval, timeout), r),
        gives(auth, line, user, password),
    ensures
        is_made_as_asked(
            r,
            url@,
            user,
            password,
            max_retries,
            retry_interval,
            timeout,
            None,
        ),
{
    lemma_gives(auth, line, user, password);
    lemma_header(user, password);
}

/// Without credentials there is no client, and the error is the one of the cookie file, whatever the
/// settings.
pub proof fn clients_need_credentials(
    url: String,
    auth: Auth,
    line: FirstLine,
    max_retries: Option<u16>,
    retry_interval: Option<u64>,
    timeout: Option<u64>,
    limit: Option<usize>,
    r: ClientResult<Client>,
)
    requires
        call_ensures(
            Client::new_with_max_in_flight_requests,
            (url, auth, line, max_retries, retry_interval, timeout, limit),
            r,
        ),
    ensures
        names_invalid_cookie(auth, line) ==> r is Err && is_other(r->Err_0, "Invalid cookie file"@),
        auth is CookieFile ==> (line matches Some(Err(message)) ==> r is Err && is_other(
            r->Err_0,
            message@,
        )),
{
    if let Some(Ok(text)) = line {
        text@.index_of_first_ensures(':');
    }
}

/// What a client shows are its settings, each under its name.
pub proof fn summaries_show_the_settings(client: Client, r: ClientSummary)
    requires
        call_ensures(Client::summary, (&client,), r),
    ensures
        r.url@ == client@.url,
        r.timeout == client@.timeout,
        r.max_retries == client@.max_retries,
        r.retry_interval == client@.retry_interval,
        r.max_in_flight_requests == client@.max_in_flight_requests,
        call_ensures(AtomicUsize::load, (&*client.counter(), Ordering::Relaxed), r.id),
{
}

/// A clone is a handle on the same client.
pub proof fn clones_share_everything(client: Client, r: Client)
    requires
        call_ensures(<Client as Clone>::clone, (&client,), r),
    ensures
        r@.url == client@.url,
        r@.authorization == client@.authorization,
        r@.timeout == client@.timeout,
        r@.max_retries == client@.max_retries,
        r@.retry_interval == client@.retry_interval,
        r@.max_in_flight_requests == client@.max_in_flight_requests,
        r.pool() == client.pool(),
        r.counter() == client.counter(),
        r.limiter() == client.limiter(),
{
}

/// A client hands out its own connections, and its own limiter where it has a limit: one that was
/// made with as many permits.
pub proof fn clients_hand_out_what_they_have(
    client: Client,
    pool: &bitreq::Client,
    limiter: Option<&Arc<tokio::sync::Semaphore>>,
)
    requires
        call_ensures(Client::http_client, (&client,), pool),
        call_ensures(Client::request_limiter, (&client,), limiter),
    ensures
        *pool == client.pool(),
        client@.max_in_flight_requests is None ==> limiter is None,
        client@.max_in_flight_requests matches Some(n) ==> (limiter matches Some(l)
            && client.limiter() == Some(*l) && initial_permits(**l) == n),
{
}

/// Whether `text` is the compact JSON of a call, with `n` as its number, `m` between the quotation
/// marks of its method, and `l` between the brackets of its parameters.
pub open spec fn is_call_text(
    text: Seq<char>,
    n: Seq<char>,
    m: Seq<char>,
    l: Seq<char>,
) -> bool {
    text == "{\"id\":"@ + n + ",\"jsonrpc\":\"1.0\",\"method\":\""@ + m + "\",\"params\":["@ + l
        + "]}"@
}

/// Whether a reader of `text` finds this number, this method and these parameters in it.
pub open spec fn carries_call(
    text: Seq<char>,
    id: nat,
    method: Seq<char>,
    params: Seq<Seq<char>>,
) -> bool {
    exists|n: Seq<char>, m: Seq<char>, l: Seq<char>| #[trigger]
        is_call_text(text, n, m, l) && writes_number(n, id) && unescaped(m) == Some(method)
            && lists(l, params)
}

/// Whether `request` carries the call of `method` with `params` from `client`, under number `id`.
pub open spec fn posts(
    request: HttpRequest,
    client: Client,
    id: usize,
    method: Seq<char>,
    params: Seq<serde_json::Value>,
) -> bool {
    &&& request.url@ == client@.url
    &&& request.timeout == client@.timeout
    &&& request.headers@.len() == 2
    &&& request.headers@[0].0@ == "Authorization"@
    &&& request.headers@[0].1@ == client@.authorization
    &&& request.headers@[1].0@ == "Content-Type"@
    &&& request.headers@[1].1@ == "application/json"@
    &&& valid_utf8(request.body@)
    &&& carries_call(
        decode_utf8(request.body@),
        id as nat,
        method,
        Seq::new(params.len(), |i: int| json_text(params[i])),
    )
}

/// The JSON of a call, written out.
proof fn lemma_call_text(id: nat, method: Seq<char>, params: Seq<Seq<char>>)
    ensures
        is_call_text(
            rpc_text(id, method, params),
            decimal(id),
            escaped(method),
            comma_separated(params),
        ),
{
    reveal_strlit("id");
    reveal_strlit("jsonrpc");
    reveal_strlit("1.0");
    reveal_strlit("method");
    reveal_strlit("params");
    reveal_strlit("{\"id\":");
    reveal_strlit(",\"jsonrpc\":\"1.0\",\"method\":\"");
    reveal_strlit("\",\"params\":[");
    reveal_strlit("]}");
    let members = seq![
        ("id"@, decimal(id)),
        ("jsonrpc"@, string_text("1.0"@)),
        ("method"@, string_text(method)),
        ("params"@, crate::document::array_text(params)),
    ];
    let parts = members.map_values(
        |m: (Seq<char>, Seq<char>)| string_text(m.0) + seq![':'] + m.1,
    );
    assert(parts.len() == 4);
    assert(parts[0] == string_text("id"@) + seq![':'] + decimal(id));
    assert(parts[1] == string_text("jsonrpc"@) + seq![':'] + string_text("1.0"@));
    assert(parts[2] == string_text("method"@) + seq![':'] + string_text(method));
    assert(parts[3] == string_text("params"@) + seq![':'] + crate::document::array_text(params));
    let p3 = parts.drop_last();
    let p2 = p3.drop_last();
    let p1 = p2.drop_last();
    assert(p3.last() == parts[2] && p2.last() == parts[1] && p1.len() == 1 && p1[0] == parts[0]);
    assert(comma_separated(p1) == parts[0]);
    assert(comma_separated(p2) == parts[0] + seq![','] + parts[1]);
    assert(comma_separated(p3) == parts[0] + seq![','] + parts[1] + seq![','] + parts[2]);
    assert(comma_separated(parts) == parts[0] + seq![','] + parts[1] + seq![','] + parts[2] + seq![
        ',',
    ] + parts[3]);
    lemma_plain("id"@);
    lemma_plain("jsonrpc"@);
    lemma_plain("1.0"@);
    lemma_plain("method"@);
    lemma_plain("params"@);
    assert(rpc_text(id, method, params) =~= "{\"id\":"@ + decimal(id)
        + ",\"jsonrpc\":\"1.0\",\"method\":\""@ + escaped(method) + "\",\"params\":["@
        + comma_separated(params) + "]}"@);
}

/// Letters, digits and dots stand for themselves inside a JSON string.
proof fn lemma_plain(s: Seq<char>)
    requires
        forall|i: int|
            0 <= i < s.len() ==> #[trigger] s[i] != '"' && s[i] != '\\' && s[i] as nat >= 0x20,
    ensures
        escaped(s) == s,
    decreases s.len(),
{
    if s.len() > 0 {
        assert forall|i: int| 0 <= i < s.drop_last().len() implies #[trigger] s.drop_last()[i] != '"'
            && s.drop_last()[i] != '\\' && s.drop_last()[i] as nat >= 0x20 by {
            assert(s.drop_last()[i] == s[i]);
        }
        lemma_plain(s.drop_last());
        assert(s[s.len() - 1] == s.last());
        assert(escaped(s) =~= s.drop_last() + seq![s.last()]);
        assert(escaped(s) =~= s);
    } else {
        assert(escaped(s) =~= s);
    }
}

/// A body written for a call is read as that call.
proof fn lemma_body(id: usize, method: Seq<char>, params: Seq<serde_json::Value>, body: Seq<u8>)
    requires
        body == crate::client::http::rpc_body(id as nat, method, json_texts(params)),
    ensures
        valid_utf8(body),
        decode_utf8(body) == rpc_text(id as nat, method, json_texts(params)),
        carries_call(
            decode_utf8(body),
            id as nat,
            method,
            Seq::new(params.len(), |i: int| json_text(params[i])),
        ),
{
    let texts = json_texts(params);
    let text = rpc_text(id as nat, method, texts);
    assert(texts =~= Seq::new(params.len(), |i: int| json_text(params[i])));
    vstd::utf8::encode_utf8_valid_utf8(text);
    vstd::utf8::encode_utf8_decode_utf8(text);
    lemma_call_text(id as nat, method, texts);
    numerals_are_read_back(id as nat);
    strings_are_read_back(method);
    lists_are_written_in_full(texts);
}

/// A call can be read back from its request: the request goes to the client's URL with its
/// credentials and its timeout, and its body holds the number, the method, and every parameter in
/// its place, however many there are.
pub proof fn requests_carry_the_call(
    client: Client,
    id: usize,
    method: &str,
    params: &[serde_json::Value],
    r: ClientResult<HttpRequest>,
)
    requires
        call_ensures(Client::request, (&client, id, method, params), r),
    ensures
        r matches Ok(request) && posts(request, client, id, method@, params@),
{
    lemma_posts(r->Ok_0, client, id, method@, params@);
}

/// A request that is written for a call carries it.
pub(crate) proof fn lemma_posts(
    request: HttpRequest,
    client: Client,
    id: usize,
    method: Seq<char>,
    params: Seq<serde_json::Value>,
)
    requires
        request@ == request_view(client@, id, method, json_texts(params)),
    ensures
        posts(request, client, id, method, params),
{
    lemma_body(id, method, params, request.body@);
    lemma_headers(request, client@.authorization);
}

/// Two headers, seen through the request's view.
proof fn lemma_headers(request: HttpRequest, authorization: Seq<char>)
    requires
        request@.headers == seq![
            ("Authorization"@, authorization),
            ("Content-Type"@, "application/json"@),
        ],
    ensures
        request.headers@.len() == 2,
        request.headers@[0].0@ == "Authorization"@,
        request.headers@[0].1@ == authorization,
        request.headers@[1].0@ == "Content-Type"@,
        request.headers@[1].1@ == "application/json"@,
{
    let seen = request@.headers;
    assert(seen.len() == request.headers@.len());
    assert(seen[0] == (request.headers@[0].0@, request.headers@[0].1@));
    assert(seen[1] == (request.headers@[1].0@, request.headers@[1].1@));
}

/// Requests of the same number and method with different parameters have different bodies.
pub proof fn requests_tell_parameters_apart(
    clients: (Client, Client),
    id: usize,
    method: &str,
    params: (&[serde_json::Value], &[serde_json::Value]),
    requests: (ClientResult<HttpRequest>, ClientResult<HttpRequest>),
)
    requires
        call_ensures(Client::request, (&clients.0, id, method, params.0), requests.0),
        call_ensures(Client::request, (&clients.1, id, method, params.1), requests.1),
        requests.0 matches Ok(a) && requests.1 matches Ok(b) && a.body@ == b.body@,
        forall|i: int| 0 <= i < params.0@.len() ==> stands_alone(json_text(#[trigger] params.0@[i])),
        forall|i: int| 0 <= i < params.1@.len() ==> stands_alone(json_text(#[trigger] params.1@[i])),
    ensures
        params.0@.len() == params.1@.len(),
        forall|i: int|
            0 <= i < params.0@.len() ==> json_text(#[trigger] params.0@[i]) == json_text(
                params.1@[i],
            ),
{
    let a = json_texts(params.0@);
    let b = json_texts(params.1@);
    lemma_body(id, method@, params.0@, requests.0->Ok_0.body@);
    lemma_body(id, method@, params.1@, requests.1->Ok_0.body@);
    lemma_call_text(id as nat, method@, a);
    lemma_call_text(id as nat, method@, b);
    let front = "{\"id\":"@ + decimal(id as nat) + ",\"jsonrpc\":\"1.0\",\"method\":\""@ + escaped(
        method@,
    ) + "\",\"params\":["@;
    let text = rpc_text(id as nat, method@, a);
    assert(text == rpc_text(id as nat, method@, b));
    reveal_strlit("]}");
    assert(comma_separated(a) =~= text.subrange(front.len() as int, text.len() - 2));
    assert(comma_separated(b) =~= text.subrange(front.len() as int, text.len() - 2));
    assert forall|i: int| 0 <= i < a.len() implies stands_alone(#[trigger] a[i]) by {
        assert(a[i] == json_text(params.0@[i]));
    }
    assert forall|i: int| 0 <= i < b.len() implies stands_alone(#[trigger] b[i]) by {
        assert(b[i] == json_text(params.1@[i]));
    }
    lists_are_told_apart(a, b);
    assert forall|i: int| 0 <= i < params.0@.len() implies json_text(#[trigger] params.0@[i])
        == json_text(params.1@[i]) by {
        assert(a[i] == json_text(params.0@[i]));
        assert(b[i] == json_text(params.1@[i]));
    }
}

} // verus!
