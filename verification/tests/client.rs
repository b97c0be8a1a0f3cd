use std::time::Duration;

use bitcoind_async_client::client::auth::{basic_authorization, Auth, FirstLine};
use bitcoind_async_client::client::call::{
    failed_reply, read_response, CallAction, CallEvent, CallState,
};
use bitcoind_async_client::client::http::{body_text, HttpReply, HttpRequest, Response};
use bitcoind_async_client::client::{to_value, Client, ClientResult};
use bitcoind_async_client::error::{BitcoinRpcError, ClientError};
use serde_json::Value;

fn user_pass() -> Auth {
    Auth::UserPass("user".to_string(), "pass".to_string())
}

fn error_of<T>(result: ClientResult<T>) -> ClientError {
    match result {
        Ok(_) => panic!("an error was expected"),
        Err(error) => error,
    }
}

fn made(result: ClientResult<Client>) -> Client {
    match result {
        Ok(client) => client,
        Err(error) => panic!("{}", error.to_text()),
    }
}

fn client(max_retries: Option<u16>, limit: Option<usize>) -> Client {
    made(Client::new_with_max_in_flight_requests(
        "http://127.0.0.1:8332".to_string(),
        user_pass(),
        None,
        max_retries,
        Some(10),
        Some(5),
        limit,
    ))
}

/// Makes a client with the credentials of a cookie file.
fn with_cookie(line: FirstLine) -> ClientResult<Client> {
    let auth = Auth::CookieFile(std::path::PathBuf::from("/tmp/.cookie"));
    Client::new("http://localhost".to_string(), auth, line, None, None, None)
}

fn authorization(client: &Client) -> String {
    let request = sent(client.request(0, "ping", &[]));
    request.headers[0].1.clone()
}

fn sent(request: ClientResult<HttpRequest>) -> HttpRequest {
    match request {
        Ok(request) => request,
        Err(error) => panic!("{}", error.to_text()),
    }
}

fn reply(status_code: i32, reason_phrase: &str, body: &str) -> HttpReply {
    HttpReply {
        status_code,
        reason_phrase: reason_phrase.to_string(),
        body: body.as_bytes().to_vec(),
    }
}

fn refused() -> bitreq::Error {
    bitreq::Error::IoError(std::io::Error::new(std::io::ErrorKind::ConnectionRefused, "refused"))
}

fn response<R>(result: Option<R>, error: Option<(i32, &str)>) -> Response<R> {
    let error = error.map(|(code, message)| BitcoinRpcError { code, message: message.to_string() });
    Response { result, error, id: 0 }
}

/// Reads a response as a driver does.
fn read(text: &str) -> Result<Response<Value>, serde_json::Error> {
    let value: Value = serde_json::from_str(text)?;
    let error = match &value["error"] {
        Value::Object(error) => Some(BitcoinRpcError {
            code: error["code"].as_i64().unwrap() as i32,
            message: error["message"].as_str().unwrap().to_string(),
        }),
        _ => None,
    };
    let result = match &value["result"] {
        Value::Null => None,
        result => Some(result.clone()),
    };
    Ok(Response { result, error, id: 0 })
}

/// What a call did: the bodies it sent, the pauses it made, and its result.
struct Outcome {
    bodies: Vec<String>,
    pauses: Vec<u64>,
    permits: usize,
    result: ClientResult<Value>,
}

/// Carries a call out against a list of things that the network does, one for each attempt.
fn drive(client: &Client, attempts: Vec<Result<HttpReply, bitreq::Error>>) -> Outcome {
    let method = "getblockcount";
    let params = vec![Value::from(1), Value::from("a\"b")];
    let mut attempts = attempts.into_iter();
    let mut bodies = Vec::new();
    let mut pauses = Vec::new();
    let mut permits = 0;
    let (mut state, mut action): (CallState, CallAction<Value>) = client.start(method, &params);
    loop {
        let event = match action {
            CallAction::Acquire => {
                permits += 1;
                CallEvent::Acquired(true)
            }
            CallAction::Send(request) => {
                bodies.push(String::from_utf8(request.body).unwrap());
                match attempts.next().expect("an attempt") {
                    Ok(reply) => CallEvent::Replied(reply),
                    Err(error) => CallEvent::SendFailed(error),
                }
            }
            CallAction::Wait(ms) => {
                pauses.push(ms);
                CallEvent::Waited
            }
            CallAction::ReadFailure(text) => CallEvent::FailureRead(read(&text).ok()),
            CallAction::ReadResult(text) => CallEvent::ResultRead(read(&text)),
            CallAction::Finish(result) => return Outcome { bodies, pauses, permits, result },
        };
        let next = client.step(method, &params, state, event);
        state = next.0;
        action = next.1;
    }
}

#[test]
fn new_with_max_in_flight_requests_rejects_zero() {
    let error = error_of(Client::new_with_max_in_flight_requests(
        "http://127.0.0.1:8332".to_string(),
        Auth::UserPass("user".to_string(), "pass".to_string()),
        None,
        None,
        None,
        None,
        Some(0),
    ));

    assert!(matches!(error, ClientError::Param(message) if message.contains("greater than 0")));
}

#[test]
fn max_in_flight_requests_limits_per_client_concurrency() {
    let client = made(Client::new_with_max_in_flight_requests(
        "http://127.0.0.1:8332".to_string(),
        Auth::UserPass("user".to_string(), "pass".to_string()),
        None,
        None,
        None,
        None,
        Some(1),
    ));
    let limiter = client.request_limiter().expect("limiter enabled").clone();
    let runtime = tokio::runtime::Builder::new_current_thread().enable_time().build().unwrap();
    runtime.block_on(async {
        let permit = limiter.clone().acquire_owned().await.expect("first permit");
        let blocked =
            tokio::time::timeout(Duration::from_millis(25), limiter.clone().acquire_owned()).await;
        assert!(blocked.is_err(), "second permit must wait while the first is held");

        drop(permit);

        let second =
            tokio::time::timeout(Duration::from_millis(25), limiter.clone().acquire_owned())
                .await
                .expect("second permit should be available")
                .expect("second permit should succeed");
        drop(second);
    });
}

#[test]
fn limiter_has_as_many_permits_as_requests_are_allowed() {
    let limited = client(None, Some(4));
    assert_eq!(limited.request_limiter().unwrap().available_permits(), 4);
    assert!(client(None, None).request_limiter().is_none());
}

#[test]
fn clones_share_the_limiter_and_the_request_numbers() {
    let first = client(None, Some(1));
    let second = first.clone();
    let permit = first.request_limiter().unwrap().clone().try_acquire_owned().unwrap();
    assert_eq!(second.request_limiter().unwrap().available_permits(), 0);
    drop(permit);

    let one = drive(&first, vec![Ok(reply(200, "OK", r#"{"result":1}"#))]);
    let two = drive(&second, vec![Ok(reply(200, "OK", r#"{"result":1}"#))]);
    assert!(one.bodies[0].starts_with(r#"{"id":0,"#));
    assert!(two.bodies[0].starts_with(r#"{"id":1,"#));
    assert_eq!(first.summary().id, 2);
}

#[test]
fn defaults_stand_in_for_missing_settings() {
    let client =
        made(Client::new("http://node".to_string(), user_pass(), None, None, None, None));
    let summary = client.summary();
    assert_eq!(summary.url, "http://node");
    assert_eq!(summary.timeout, 30);
    assert_eq!(summary.id, 0);
    assert_eq!(summary.max_retries, 3);
    assert_eq!(summary.retry_interval, 1000);
    assert_eq!(summary.max_in_flight_requests, None);
    assert!(!format!("{:?}", summary).contains("Basic"));
}

#[test]
fn missing_credentials_are_refused() {
    for auth in vec![
        Auth::UserPass(String::new(), "pass".to_string()),
        Auth::UserPass("user".to_string(), String::new()),
        Auth::UserPass(String::new(), String::new()),
    ] {
        let made = Client::new_with_max_in_flight_requests(
            "http://node".to_string(),
            auth,
            None,
            None,
            None,
            None,
            Some(0),
        );
        assert_eq!(error_of(made), ClientError::MissingUserPassword);
    }
}

#[test]
fn credentials_are_encoded_in_the_authorization_header() {
    assert_eq!(basic_authorization("user", "pass"), "Basic dXNlcjpwYXNz");
    assert_eq!(basic_authorization("Aladdin", "open sesame"), "Basic QWxhZGRpbjpvcGVuIHNlc2FtZQ==");
    assert_eq!(basic_authorization("a", "bc"), "Basic YTpiYw==");
    assert_eq!(basic_authorization("a", "bcd"), "Basic YTpiY2Q=");
    assert_eq!(basic_authorization("é", "?>~"), "Basic w6k6Pz5+");
}

#[test]
fn cookie_files_hold_credentials() {
    let client = made(with_cookie(Some(Ok("__cookie__:ab:cd".to_string()))));
    assert_eq!(authorization(&client), basic_authorization("__cookie__", "ab:cd"));

    let auth = Auth::CookieFile(std::path::PathBuf::from("/tmp/.cookie"));
    assert_eq!(auth.cookie_path(), Some(&std::path::PathBuf::from("/tmp/.cookie")));
    assert_eq!(
        auth.get_user_pass(Some(Ok("ü:π:".to_string()))),
        Ok((Some("ü".to_string()), Some("π:".to_string())))
    );
    assert_eq!(user_pass().cookie_path(), None);
}

#[test]
fn bad_cookie_files_are_refused() {
    let invalid = ClientError::Other("Invalid cookie file".to_string());
    assert_eq!(error_of(with_cookie(None)), invalid);
    assert_eq!(error_of(with_cookie(Some(Ok("nocolon".to_string())))), invalid);
    assert_eq!(
        error_of(with_cookie(Some(Err("No such file or directory".to_string())))),
        ClientError::Other("No such file or directory".to_string())
    );
    assert_eq!(
        error_of(with_cookie(Some(Ok(":pass".to_string())))),
        ClientError::MissingUserPassword
    );
    assert_eq!(
        error_of(with_cookie(Some(Ok("user:".to_string())))),
        ClientError::MissingUserPassword
    );
}

#[test]
fn requests_carry_the_call() {
    let client = client(None, None);
    let params = vec![Value::Null, Value::from(0.5), Value::from("x\n\u{1}\"\\é")];
    let request = sent(client.request(7, "send\ttx", &params));
    assert_eq!(request.url, "http://127.0.0.1:8332");
    assert_eq!(request.timeout, 5);
    assert_eq!(
        request.headers,
        vec![
            ("Authorization".to_string(), "Basic dXNlcjpwYXNz".to_string()),
            ("Content-Type".to_string(), "application/json".to_string()),
        ]
    );
    assert_eq!(
        String::from_utf8(request.body).unwrap(),
        "{\"id\":7,\"jsonrpc\":\"1.0\",\"method\":\"send\\ttx\",\
         \"params\":[null,0.5,\"x\\n\\u0001\\\"\\\\é\"]}"
    );
    let empty = sent(client.request(usize::MAX, "ping", &[]));
    assert_eq!(
        String::from_utf8(empty.body).unwrap(),
        format!("{{\"id\":{},\"jsonrpc\":\"1.0\",\"method\":\"ping\",\"params\":[]}}", usize::MAX)
    );
}

#[test]
fn a_reply_ends_the_call_with_its_result() {
    let client = client(None, None);
    let outcome = drive(&client, vec![Ok(reply(200, "OK", r#"{"result":"first","error":null}"#))]);
    assert_eq!(outcome.result, Ok(Value::from("first")));
    assert_eq!(
        outcome.bodies,
        vec![r#"{"id":0,"jsonrpc":"1.0","method":"getblockcount","params":[1,"a\"b"]}"#]
    );
    assert!(outcome.pauses.is_empty());
    assert_eq!(outcome.permits, 0);
}

#[test]
fn a_dead_connection_is_retried() {
    let client = client(Some(3), Some(2));
    let outcome = drive(
        &client,
        vec![Err(refused()), Ok(reply(200, "OK", r#"{"result":"second","error":null,"id":1}"#))],
    );
    assert_eq!(outcome.result, Ok(Value::from("second")));
    assert_eq!(outcome.bodies.len(), 2);
    assert!(outcome.bodies[1].starts_with(r#"{"id":1,"#));
    assert_eq!(outcome.pauses, vec![10]);
    assert_eq!(outcome.permits, 1);
}

#[test]
fn retries_run_out() {
    for (max_retries, attempts) in vec![(0u16, 1usize), (1, 1), (2, 2), (3, 3), (7, 7)] {
        let client = client(Some(max_retries), None);
        let failures = (0..attempts).map(|_| Err(refused())).collect();
        let outcome = drive(&client, failures);
        assert_eq!(outcome.result, Err(ClientError::MaxRetriesExceeded(max_retries)));
        assert_eq!(outcome.bodies.len(), attempts);
        assert_eq!(outcome.pauses, vec![10; attempts - 1]);
    }
}

#[test]
fn every_attempt_takes_the_next_number() {
    let client = client(Some(3), None);
    let failures = || (0..3).map(|_| Err(bitreq::Error::AddressNotFound)).collect();
    let first = drive(&client, failures());
    let second = drive(&client, failures());
    assert_eq!(first.result, Err(ClientError::MaxRetriesExceeded(3)));
    assert_eq!(first.pauses, vec![10, 10]);
    let bodies: Vec<String> = first.bodies.into_iter().chain(second.bodies).collect();
    assert_eq!(bodies.len(), 6);
    for (id, body) in bodies.iter().enumerate() {
        assert!(body.starts_with(&format!("{{\"id\":{},", id)));
    }
    assert_eq!(client.summary().id, 6);
}

#[test]
fn new_clients_show_nothing_of_their_credentials() {
    let show = |user: &str, password: &str| {
        let auth = Auth::UserPass(user.to_string(), password.to_string());
        made(Client::new("http://node".to_string(), auth, None, Some(2), None, Some(7))).summary()
    };
    assert_eq!(show("alice", "one"), show("bob", "two"));
}

#[test]
fn a_limited_call_asks_for_one_permit_however_it_ends() {
    let client = client(Some(1), Some(1));
    let endings: Vec<Result<HttpReply, bitreq::Error>> = vec![
        Ok(reply(200, "OK", r#"{"result":1}"#)),
        Ok(reply(500, "Error", r#"{"error":{"code":-5,"message":"none"}}"#)),
        Err(refused()),
        Err(bitreq::Error::TooManyRedirections),
    ];
    for ending in endings {
        assert_eq!(drive(&client, vec![ending]).permits, 1);
    }
}

#[test]
fn a_limit_of_one_lets_one_call_at_a_time_send() {
    let first = client(Some(2), Some(1));
    let second = first.clone();
    let (waiting, action): (CallState, CallAction<Value>) = second.start("b", &[]);
    assert!(matches!(action, CallAction::Acquire));

    let (mut state, action): (CallState, CallAction<Value>) = first.start("a", &[]);
    assert!(matches!(action, CallAction::Acquire));
    let permit = first.request_limiter().unwrap().clone().try_acquire_owned().unwrap();
    let events = vec![
        CallEvent::Acquired(true),
        CallEvent::SendFailed(refused()),
        CallEvent::Waited,
        CallEvent::Replied(reply(200, "OK", r#"{"result":1}"#)),
        CallEvent::ResultRead(read(r#"{"result":1}"#)),
    ];
    let mut sends = 0;
    for event in events {
        assert!(second.request_limiter().unwrap().clone().try_acquire_owned().is_err());
        let (next, action) = first.step("a", &[], state, event);
        if matches!(action, CallAction::Send(_)) {
            sends += 1;
        }
        state = next;
    }
    assert_eq!(sends, 2);
    assert!(matches!(state, CallState::Finished));
    drop(permit);

    let granted = second.request_limiter().unwrap().clone().try_acquire_owned().is_ok();
    let (state, action) = second.step("b", &[], waiting, CallEvent::<Value>::Acquired(granted));
    assert!(matches!(state, CallState::Sending { retries: 0 }));
    match action {
        CallAction::Send(request) => assert!(request.body.starts_with(b"{\"id\":2,")),
        _ => panic!("a request was expected"),
    }
}

#[test]
fn unrecoverable_errors_are_not_retried() {
    let client = client(Some(3), None);
    let outcome = drive(&client, vec![Err(bitreq::Error::TooManyRedirections)]);
    let text = bitreq::Error::TooManyRedirections.to_string();
    assert_eq!(outcome.result, Err(ClientError::HttpRedirect(text)));
    assert_eq!(outcome.bodies.len(), 1);
}

#[test]
fn some_transport_errors_are_recoverable() {
    for error in vec![
        bitreq::Error::AddressNotFound,
        refused(),
        bitreq::Error::RustlsCreateConnection(rustls::Error::DecryptError),
        bitreq::Error::MalformedChunkLength,
        bitreq::Error::MalformedChunkEnd,
        bitreq::Error::MalformedContentLength,
        bitreq::Error::InvalidUtf8InResponse,
    ] {
        assert!(Client::is_error_recoverable(&error));
    }
    for error in vec![
        bitreq::Error::RedirectLocationMissing,
        bitreq::Error::InfiniteRedirectionLoop,
        bitreq::Error::TooManyRedirections,
        bitreq::Error::HeadersOverflow,
        bitreq::Error::StatusLineOverflow,
        bitreq::Error::BodyOverflow,
        bitreq::Error::InvalidUtf8InBody(std::str::from_utf8(&[0xff]).unwrap_err()),
        bitreq::Error::HttpsFeatureNotEnabled,
        bitreq::Error::Other("odd"),
    ] {
        assert!(!Client::is_error_recoverable(&error));
    }
}

#[test]
fn server_errors_are_reported_whatever_the_status() {
    let client = client(None, None);
    let body = r#"{"result":null,"error":{"code":-5,"message":"Block not found"},"id":0}"#;
    for (status, reason) in vec![(200, "OK"), (404, "Not Found"), (500, "Internal Server Error")] {
        let outcome = drive(&client, vec![Ok(reply(status, reason, body))]);
        assert_eq!(
            outcome.result,
            Err(ClientError::Server(-5, "Block not found".to_string()))
        );
    }
}

#[test]
fn failure_statuses_are_reported_with_the_body() {
    let client = client(None, None);
    for body in vec!["<html>", r#"{"result":1,"error":null,"id":0}"#] {
        let outcome = drive(&client, vec![Ok(reply(401, "Unauthorized", body))]);
        assert_eq!(
            outcome.result,
            Err(ClientError::Status(401, format!("Unauthorized | body: {}", body)))
        );
    }
    for status in vec![199, 300, 0] {
        let outcome = drive(&client, vec![Ok(reply(status, "", "x"))]);
        assert_eq!(
            outcome.result,
            Err(ClientError::Status(status as u16, " | body: x".to_string()))
        );
    }
    for status in vec![200, 299] {
        let outcome = drive(&client, vec![Ok(reply(status, "", r#"{"result":5}"#))]);
        assert_eq!(outcome.result, Ok(Value::from(5)));
    }
}

#[test]
fn odd_status_codes_are_cut_to_sixteen_bits() {
    assert_eq!(
        failed_reply::<Value>(-1, "r", "b", None),
        ClientError::Status(65535, "r | body: b".to_string())
    );
    assert_eq!(
        failed_reply(65536 + 404, "r", "b", Some(response::<Value>(Some(Value::Null), None))),
        ClientError::Status(404, "r | body: b".to_string())
    );
}

#[test]
fn empty_and_unreadable_results_are_errors() {
    let client = client(None, None);
    let outcome = drive(&client, vec![Ok(reply(200, "OK", r#"{"result":null,"error":null}"#))]);
    assert_eq!(outcome.result, Err(ClientError::Other("Empty data received".to_string())));
    assert_eq!(
        read_response(response::<u8>(None, None)),
        Err(ClientError::Other("Empty data received".to_string()))
    );
    assert_eq!(read_response(response(Some(3), None)), Ok(3));

    let outcome = drive(&client, vec![Ok(reply(200, "OK", "nope"))]);
    let text = serde_json::from_str::<Value>("nope").unwrap_err().to_string();
    assert_eq!(outcome.result, Err(ClientError::Parse(text)));
}

#[test]
fn bodies_that_are_not_utf8_cannot_be_parsed() {
    let bytes = vec![b'a', 0xc3, 0x28];
    let text = std::str::from_utf8(&bytes).unwrap_err().to_string();
    assert!(body_text(&bytes).is_err());
    assert_eq!(body_text(&"é".as_bytes().to_vec()).unwrap(), "é");

    let client = client(None, None);
    for status_code in vec![200, 500] {
        let reply = HttpReply { status_code, reason_phrase: String::new(), body: bytes.clone() };
        let outcome = drive(&client, vec![Ok(reply)]);
        assert_eq!(outcome.result, Err(ClientError::Parse(text.clone())));
    }
}

#[test]
fn a_closed_limiter_ends_the_call() {
    let client = client(None, Some(1));
    let (state, action): (CallState, CallAction<Value>) = client.start("ping", &[]);
    assert!(matches!(action, CallAction::Acquire));
    let (_, action) = client.step("ping", &[], state, CallEvent::<Value>::Acquired(false));
    match action {
        CallAction::Finish(result) => assert_eq!(
            result,
            Err(ClientError::Other("request limiter closed".to_string()))
        ),
        _ => panic!("the call must be over"),
    }
}

#[test]
fn values_that_cannot_be_made_are_refused() {
    assert_eq!(to_value(serde_json::to_value(3)), Ok(Value::from(3)));
    let error = serde_json::from_str::<Value>("{").unwrap_err();
    let text = format!("Error creating value: {}", error);
    assert_eq!(to_value(Err(error)), Err(ClientError::Param(text)));
}

#[test]
fn numbers_taken_by_several_clones_never_repeat() {
    let client = client(None, None);
    let clones: Vec<Client> = (0..4).map(|_| client.clone()).collect();
    let mut ids: Vec<u64> = Vec::new();
    for _ in 0..25 {
        for clone in &clones {
            let outcome = drive(clone, vec![Ok(reply(200, "OK", r#"{"result":1}"#))]);
            let body: Value = serde_json::from_str(&outcome.bodies[0]).unwrap();
            ids.push(body["id"].as_u64().unwrap());
        }
    }
    assert_eq!(ids, (0..100).collect::<Vec<u64>>());
    assert_eq!(client.summary().id, 100);
}

#[test]
fn a_permit_is_refused_once_the_limiter_is_closed() {
    let client = client(None, Some(1));
    let limiter = client.request_limiter().unwrap().clone();
    assert!(limiter.clone().try_acquire_owned().is_ok());
    limiter.close();
    let granted = limiter.try_acquire_owned().is_ok();
    assert!(!granted);
    let (state, _): (CallState, CallAction<Value>) = client.start("ping", &[]);
    let (state, action) = client.step("ping", &[], state, CallEvent::<Value>::Acquired(granted));
    assert!(matches!(state, CallState::Finished));
    match action {
        CallAction::Finish(result) => {
            assert_eq!(result, Err(ClientError::Other("request limiter closed".to_string())));
        }
        _ => panic!("the end of the call was expected"),
    }
}
