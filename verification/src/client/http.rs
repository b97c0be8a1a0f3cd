//! What goes over HTTP: the request that carries a call, and the reply to it.
use vstd::prelude::*;
use vstd::utf8::{decode_utf8, encode_utf8, valid_utf8};

use crate::document::{array_text, object_text, string_text};
use crate::error::BitcoinRpcError;
use crate::text::decimal;

verus! {

/// An HTTP `POST` request.
pub struct HttpRequest {
    /// Where it goes.
    pub url: String,
    /// Names and values of its headers.
    pub headers: Vec<(String, String)>,
    /// Its body.
    pub body: Vec<u8>,
    /// How many seconds to wait for the reply.
    pub timeout: u64,
}

/// An [`HttpRequest`] with its texts as sequences of characters.
pub struct HttpRequestView {
    pub url: Seq<char>,
    pub headers: Seq<(Seq<char>, Seq<char>)>,
    pub body: Seq<u8>,
    pub timeout: u64,
}

impl View for HttpRequest {
    type V = HttpRequestView;

    open spec fn view(&self) -> HttpRequestView {
        HttpRequestView {
            url: self.url@,
            headers: self.headers@.map_values(|h: (String, String)| (h.0@, h.1@)),
            body: self.body@,
            timeout: self.timeout,
        }
    }
}

/// The JSON text of a JSON-RPC 1.0 request, where `params` are JSON texts.
pub open spec fn rpc_text(id: nat, method: Seq<char>, params: Seq<Seq<char>>) -> Seq<char> {
    object_text(
        seq![
            ("id"@, decimal(id)),
            ("jsonrpc"@, string_text("1.0"@)),
            ("method"@, string_text(method)),
            ("params"@, array_text(params)),
        ],
    )
}

/// The body of the HTTP request for a call: its JSON text in UTF-8.
pub open spec fn rpc_body(id: nat, method: Seq<char>, params: Seq<Seq<char>>) -> Seq<u8> {
    encode_utf8(rpc_text(id, method, params))
}

/// An HTTP reply.
pub struct HttpReply {
    /// The status code, such as 200.
    pub status_code: i32,
    /// The reason phrase, such as "OK".
    pub reason_phrase: String,
    /// The body.
    pub body: Vec<u8>,
}

/// Whether `status_code` says that the request was carried out.
pub open spec fn is_success(status_code: i32) -> bool {
    200 <= status_code < 300
}

/// Response returned by the `bitcoind` RPC server.
#[derive(Debug, Clone, PartialEq)]
pub struct Response<R> {
    pub result: Option<R>,
    pub error: Option<BitcoinRpcError>,
    pub id: u64,
}

/// What [`std::str::from_utf8`] objects to in `bytes` that are not UTF-8.
pub uninterp spec fn utf8_error(bytes: Seq<u8>) -> std::str::Utf8Error;

/// Calls [`std::str::from_utf8`]: the text that `bytes` encode, or an error that depends on `bytes`
/// alone where they are not UTF-8.
#[verifier::external_body]
fn utf8_text(bytes: &[u8]) -> (r: Result<&str, std::str::Utf8Error>)
    ensures
        r is Ok <==> valid_utf8(bytes@),
        r matches Ok(text) ==> text@ == decode_utf8(bytes@),
        r matches Err(error) ==> error == utf8_error(bytes@),
{
    std::str::from_utf8(bytes)
}

/// The text of a reply's body, or the transport's error where it is not UTF-8.
pub fn body_text(body: &Vec<u8>) -> (r: Result<String, bitreq::Error>)
    ensures
        r is Ok <==> valid_utf8(body@),
        r matches Ok(text) ==> text@ == decode_utf8(body@),
        r matches Err(error) ==> error == bitreq::Error::InvalidUtf8InBody(utf8_error(body@)),
{
    match utf8_text(body.as_slice()) {
        Ok(text) => Ok(text.to_string()),
        Err(error) => Err(bitreq::Error::InvalidUtf8InBody(error)),
    }
}

} // verus!
