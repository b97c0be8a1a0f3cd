//! Error types for the RPC client.
use vstd::prelude::*;
use vstd::std_specs::convert::FromSpecImpl;

use crate::text::{displays_as, push_decimal, push_signed_decimal};

verus! {

/// Bitcoin Core `RPC_INVALID_ADDRESS_OR_KEY`.
pub const RPC_INVALID_ADDRESS_OR_KEY: i32 = -5;

/// Bitcoin Core `RPC_VERIFY_ERROR`, defined in
/// <https://github.com/bitcoin/bitcoin/blob/8f4a3ba8972dae9412ba975a040cea22c227f983/src/rpc/protocol.h#L47>.
pub const RPC_VERIFY_ERROR: i32 = -25;

/// Bitcoin Core `RPC_VERIFY_REJECTED`, defined in
/// <https://github.com/bitcoin/bitcoin/blob/8f4a3ba8972dae9412ba975a040cea22c227f983/src/rpc/protocol.h#L48>.
pub const RPC_VERIFY_REJECTED: i32 = -26;

/// Bitcoin Core `RPC_VERIFY_ALREADY_IN_UTXO_SET`, defined in
/// <https://github.com/bitcoin/bitcoin/blob/8f4a3ba8972dae9412ba975a040cea22c227f983/src/rpc/protocol.h#L49>.
pub const RPC_VERIFY_ALREADY_IN_UTXO_SET: i32 = -27;

/// The error type for errors produced in this library.
#[derive(Debug, Clone, PartialEq)]
pub enum ClientError {
    /// Missing username or password for the RPC server
    MissingUserPassword,
    /// RPC server returned an error
    ///
    /// # Note
    ///
    /// These errors are ABSOLUTELY UNDOCUMENTED.
    /// Check
    /// <https://github.com/bitcoin/bitcoin/blob/96b0a8f858ab24f3672360b8c830553b963de726/src/rpc/protocol.h#L24>
    /// and good luck!
    Server(i32, String),
    /// Error parsing the RPC response, unlikely to be recoverable by retrying
    Parse(String),
    /// Error creating the RPC request, retry might help
    Param(String),
    /// Body error, unlikely to be recoverable by retrying
    Body(String),
    /// HTTP status error, not retryable
    Status(u16, String),
    /// Error decoding the response, retry might not help
    MalformedResponse(String),
    /// Connection error, retry might help
    Connection(String),
    /// Timeout error, retry might help
    Timeout,
    /// Redirect error, not retryable
    HttpRedirect(String),
    /// Error building the request, unlikely to be recoverable
    ReqBuilder(String),
    /// Maximum retries exceeded, not retryable
    MaxRetriesExceeded(u16),
    /// General request error, retry might help
    Request(String),
    /// Wrong network address
    WrongNetworkAddress(bitcoin::Network),
    /// Server version is unexpected or incompatible
    UnexpectedServerVersion(UnexpectedServerVersionError),
    /// Could not sign raw transaction
    Sign(SignRawTransactionWithWalletError),
    /// Could not get a [`Xpriv`](bitcoin::bip32::Xpriv) from the wallet
    Xpriv,
    /// Unknown error, unlikely to be recoverable
    Other(String),
}

/// A [`ClientError`] with its texts as sequences of characters.
pub enum ClientErrorView {
    MissingUserPassword,
    Server(i32, Seq<char>),
    Parse(Seq<char>),
    Param(Seq<char>),
    Body(Seq<char>),
    Status(u16, Seq<char>),
    MalformedResponse(Seq<char>),
    Connection(Seq<char>),
    Timeout,
    HttpRedirect(Seq<char>),
    ReqBuilder(Seq<char>),
    MaxRetriesExceeded(u16),
    Request(Seq<char>),
    WrongNetworkAddress(bitcoin::Network),
    UnexpectedServerVersion(UnexpectedServerVersionErrorView),
    Sign(SignRawTransactionWithWalletErrorView),
    Xpriv,
    Other(Seq<char>),
}

impl View for ClientError {
    type V = ClientErrorView;

    open spec fn view(&self) -> ClientErrorView {
        match *self {
            ClientError::MissingUserPassword => ClientErrorView::MissingUserPassword,
            ClientError::Server(code, message) => ClientErrorView::Server(code, message@),
            ClientError::Parse(text) => ClientErrorView::Parse(text@),
            ClientError::Param(text) => ClientErrorView::Param(text@),
            ClientError::Body(text) => ClientErrorView::Body(text@),
            ClientError::Status(code, text) => ClientErrorView::Status(code, text@),
            ClientError::MalformedResponse(text) => ClientErrorView::MalformedResponse(text@),
            ClientError::Connection(text) => ClientErrorView::Connection(text@),
            ClientError::Timeout => ClientErrorView::Timeout,
            ClientError::HttpRedirect(text) => ClientErrorView::HttpRedirect(text@),
            ClientError::ReqBuilder(text) => ClientErrorView::ReqBuilder(text@),
            ClientError::MaxRetriesExceeded(n) => ClientErrorView::MaxRetriesExceeded(n),
            ClientError::Request(text) => ClientErrorView::Request(text@),
            ClientError::WrongNetworkAddress(n) => ClientErrorView::WrongNetworkAddress(n),
            ClientError::UnexpectedServerVersion(e) => {
                ClientErrorView::UnexpectedServerVersion(e@)
            },
            ClientError::Sign(e) => ClientErrorView::Sign(e@),
            ClientError::Xpriv => ClientErrorView::Xpriv,
            ClientError::Other(text) => ClientErrorView::Other(text@),
        }
    }
}

impl ClientErrorView {
    /// Whether this is an error that the RPC server reported with `code`.
    pub open spec fn is_server_error(self, code: int) -> bool {
        self matches ClientErrorView::Server(c, _) && c == code
    }

    /// The error as it is shown to a user.
    pub open spec fn text(self) -> Seq<char> {
        match self {
            ClientErrorView::MissingUserPassword => "Missing username or password"@,
            ClientErrorView::Server(code, message) => {
                "RPC server returned error '"@ + message + "' (code "@
                    + crate::text::signed_decimal(code as int) + ")"@
            },
            ClientErrorView::Parse(text) => "Error parsing rpc response: "@ + text,
            ClientErrorView::Param(_) => "Could not create RPC Param"@,
            ClientErrorView::Body(text) => text,
            ClientErrorView::Status(code, text) => {
                "Obtained failure status("@ + crate::text::decimal(code as nat) + "): "@ + text
            },
            ClientErrorView::MalformedResponse(text) => "Malformed Response: "@ + text,
            ClientErrorView::Connection(text) => "Could not connect: "@ + text,
            ClientErrorView::Timeout => "Timeout"@,
            ClientErrorView::HttpRedirect(text) => "HttpRedirect: "@ + text,
            ClientErrorView::ReqBuilder(text) => "Could not build request: "@ + text,
            ClientErrorView::MaxRetriesExceeded(n) => {
                "Max retries "@ + crate::text::decimal(n as nat) + " exceeded"@
            },
            ClientErrorView::Request(text) => "Could not create request: "@ + text,
            ClientErrorView::WrongNetworkAddress(network) => {
                "Network address: "@ + network_name(network)
            },
            ClientErrorView::UnexpectedServerVersion(e) => e.text(),
            ClientErrorView::Sign(e) => e.text(),
            ClientErrorView::Xpriv => "Could not get xpriv from wallet"@,
            ClientErrorView::Other(text) => text,
        }
    }
}

impl ClientError {
    /// Returns `true` when the RPC server reports an invalid address, key, or missing
    /// transaction/block identifier (`RPC_INVALID_ADDRESS_OR_KEY`, code `-5`).
    pub fn is_tx_not_found(&self) -> (r: bool)
        ensures
            r == self@.is_server_error(-5),
    {
        matches!(self, ClientError::Server(RPC_INVALID_ADDRESS_OR_KEY, _))
    }

    /// Returns `true` when the RPC server reports an invalid address, key, or missing
    /// transaction/block identifier (`RPC_INVALID_ADDRESS_OR_KEY`, code `-5`).
    pub fn is_block_not_found(&self) -> (r: bool)
        ensures
            r == self@.is_server_error(-5),
    {
        matches!(self, ClientError::Server(RPC_INVALID_ADDRESS_OR_KEY, _))
    }

    /// Returns `true` when the RPC server reports a general transaction or block
    /// submission verification error (`RPC_VERIFY_ERROR`, code `-25`).
    pub fn is_rpc_verify_error(&self) -> (r: bool)
        ensures
            r == self@.is_server_error(-25),
    {
        matches!(self, ClientError::Server(RPC_VERIFY_ERROR, _))
    }

    /// Returns `true` when the RPC server reports a transaction or block rejected
    /// by network rules (`RPC_VERIFY_REJECTED`, code `-26`).
    pub fn is_rpc_verify_rejected(&self) -> (r: bool)
        ensures
            r == self@.is_server_error(-26),
    {
        matches!(self, ClientError::Server(RPC_VERIFY_REJECTED, _))
    }

    /// Returns `true` when the RPC server reports a transaction already present in
    /// the UTXO set (`RPC_VERIFY_ALREADY_IN_UTXO_SET`, code `-27`).
    pub fn is_rpc_verify_already_in_utxo_set(&self) -> (r: bool)
        ensures
            r == self@.is_server_error(-27),
    {
        matches!(self, ClientError::Server(RPC_VERIFY_ALREADY_IN_UTXO_SET, _))
    }

    /// Returns `true` when the RPC server reports missing or invalid transaction
    /// inputs (`RPC_VERIFY_ERROR`, code `-25`).
    ///
    /// [`ClientError::is_rpc_verify_error`] says the same under the name of the code.
    pub fn is_missing_or_invalid_input(&self) -> (r: bool)
        ensures
            r == self@.is_server_error(-25),
    {
        self.is_rpc_verify_error()
    }

    /// The error as it is shown to a user.
    pub fn to_text(&self) -> (r: String)
        ensures
            r@ == self@.text(),
    {
        let mut text = String::new();
        match self {
            ClientError::MissingUserPassword => {
                text.append("Missing username or password");
            },
            ClientError::Server(code, message) => {
                text.append("RPC server returned error '");
                text.append(message.as_str());
                text.append("' (code ");
                push_signed_decimal(&mut text, *code);
                text.append(")");
            },
            ClientError::Parse(detail) => {
                text.append("Error parsing rpc response: ");
                text.append(detail.as_str());
            },
            ClientError::Param(_) => {
                text.append("Could not create RPC Param");
            },
            ClientError::Body(detail) => {
                text.append(detail.as_str());
            },
            ClientError::Status(code, detail) => {
                text.append("Obtained failure status(");
                push_decimal(&mut text, *code as u64);
                text.append("): ");
                text.append(detail.as_str());
            },
            ClientError::MalformedResponse(detail) => {
                text.append("Malformed Response: ");
                text.append(detail.as_str());
            },
            ClientError::Connection(detail) => {
                text.append("Could not connect: ");
                text.append(detail.as_str());
            },
            ClientError::Timeout => {
                text.append("Timeout");
            },
            ClientError::HttpRedirect(detail) => {
                text.append("HttpRedirect: ");
                text.append(detail.as_str());
            },
            ClientError::ReqBuilder(detail) => {
                text.append("Could not build request: ");
                text.append(detail.as_str());
            },
            ClientError::MaxRetriesExceeded(n) => {
                text.append("Max retries ");
                push_decimal(&mut text, *n as u64);
                text.append(" exceeded");
            },
            ClientError::Request(detail) => {
                text.append("Could not create request: ");
                text.append(detail.as_str());
            },
            ClientError::WrongNetworkAddress(network) => {
                text.append("Network address: ");
                let name = network_text(network);
                text.append(name.as_str());
            },
            ClientError::UnexpectedServerVersion(e) => {
                let inner = e.to_text();
                text.append(inner.as_str());
            },
            ClientError::Sign(e) => {
                let inner = e.to_text();
                text.append(inner.as_str());
            },
            ClientError::Xpriv => {
                text.append("Could not get xpriv from wallet");
            },
            ClientError::Other(detail) => {
                text.append(detail.as_str());
            },
        }
        proof {
            assert(text@ =~= self@.text());
        }
        text
    }
}

/// The name under which a network is shown.
pub open spec fn network_name(network: bitcoin::Network) -> Seq<char> {
    match network {
        bitcoin::Network::Bitcoin => "bitcoin"@,
        bitcoin::Network::Testnet => "testnet"@,
        bitcoin::Network::Testnet4 => "testnet4"@,
        bitcoin::Network::Signet => "signet"@,
        bitcoin::Network::Regtest => "regtest"@,
    }
}

/// Calls `to_string` on a [`bitcoin::Network`], which displays each network under the lower-case
/// name that [`network_name`] lists.
#[verifier::external_body]
fn network_text(network: &bitcoin::Network) -> (r: String)
    ensures
        r@ == network_name(*network),
{
    network.to_string()
}

/// The client's error for a transport error that displays as `text`.
pub open spec fn transport_error_view(error: bitreq::Error, text: Seq<char>) -> ClientErrorView {
    match error {
        bitreq::Error::AddressNotFound
        | bitreq::Error::IoError(_)
        | bitreq::Error::RustlsCreateConnection(_) => ClientErrorView::Connection(text),
        bitreq::Error::RedirectLocationMissing
        | bitreq::Error::InfiniteRedirectionLoop
        | bitreq::Error::TooManyRedirections => ClientErrorView::HttpRedirect(text),
        bitreq::Error::HeadersOverflow
        | bitreq::Error::StatusLineOverflow
        | bitreq::Error::BodyOverflow
        | bitreq::Error::MalformedChunkLength
        | bitreq::Error::MalformedChunkEnd
        | bitreq::Error::MalformedContentLength
        | bitreq::Error::InvalidUtf8InResponse
        | bitreq::Error::InvalidUtf8InBody(_) => ClientErrorView::MalformedResponse(text),
        _ => ClientErrorView::Other(text),
    }
}

impl FromSpecImpl<bitreq::Error> for ClientError {
    open spec fn obeys_from_spec() -> bool {
        false
    }

    open spec fn from_spec(v: bitreq::Error) -> ClientError {
        arbitrary()
    }
}

impl From<bitreq::Error> for ClientError {
    fn from(value: bitreq::Error) -> (r: Self)
        ensures
            exists|text: Seq<char>| #[trigger]
                displays_as(&value, text) && r@ == transport_error_view(value, text),
    {
        let text = value.to_string();
        proof {
            assert(displays_as(&value, text@));
        }
        match value {
            // Connection errors
            bitreq::Error::AddressNotFound
            | bitreq::Error::IoError(_)
            | bitreq::Error::RustlsCreateConnection(_) => ClientError::Connection(text),
            // Redirect errors
            bitreq::Error::RedirectLocationMissing
            | bitreq::Error::InfiniteRedirectionLoop
            | bitreq::Error::TooManyRedirections => ClientError::HttpRedirect(text),
            // Size/parsing errors
            bitreq::Error::HeadersOverflow
            | bitreq::Error::StatusLineOverflow
            | bitreq::Error::BodyOverflow
            | bitreq::Error::MalformedChunkLength
            | bitreq::Error::MalformedChunkEnd
            | bitreq::Error::MalformedContentLength
            | bitreq::Error::InvalidUtf8InResponse
            | bitreq::Error::InvalidUtf8InBody(_) => ClientError::MalformedResponse(text),
            // Other errors
            _ => ClientError::Other(text),
        }
    }
}

impl FromSpecImpl<serde_json::Error> for ClientError {
    open spec fn obeys_from_spec() -> bool {
        false
    }

    open spec fn from_spec(v: serde_json::Error) -> ClientError {
        arbitrary()
    }
}

impl From<serde_json::Error> for ClientError {
    fn from(value: serde_json::Error) -> (r: Self)
        ensures
            exists|text: Seq<char>| #[trigger]
                displays_as(&value, text) && r@ == ClientErrorView::Parse(
                    "Could not parse "@ + text,
                ),
    {
        let detail = value.to_string();
        proof {
            assert(displays_as(&value, detail@));
        }
        let mut text = String::new();
        text.append("Could not parse ");
        text.append(detail.as_str());
        proof {
            assert(text@ =~= "Could not parse "@ + detail@);
        }
        ClientError::Parse(text)
    }
}

/// `bitcoind` RPC server error.
#[derive(Debug, Clone, PartialEq)]
pub struct BitcoinRpcError {
    pub code: i32,
    pub message: String,
}

/// A [`BitcoinRpcError`] with its message as a sequence of characters.
pub struct BitcoinRpcErrorView {
    pub code: i32,
    pub message: Seq<char>,
}

impl View for BitcoinRpcError {
    type V = BitcoinRpcErrorView;

    open spec fn view(&self) -> BitcoinRpcErrorView {
        BitcoinRpcErrorView { code: self.code, message: self.message@ }
    }
}

impl BitcoinRpcErrorView {
    /// The error as it is shown to a user.
    pub open spec fn text(self) -> Seq<char> {
        "RPC error "@ + crate::text::signed_decimal(self.code as int) + ": "@ + self.message
    }
}

impl BitcoinRpcError {
    /// The error as it is shown to a user.
    pub fn to_text(&self) -> (r: String)
        ensures
            r@ == self@.text(),
    {
        let mut text = String::new();
        text.append("RPC error ");
        push_signed_decimal(&mut text, self.code);
        text.append(": ");
        text.append(self.message.as_str());
        proof {
            assert(text@ =~= self@.text());
        }
        text
    }
}

impl FromSpecImpl<BitcoinRpcError> for ClientError {
    open spec fn obeys_from_spec() -> bool {
        true
    }

    open spec fn from_spec(v: BitcoinRpcError) -> ClientError {
        ClientError::Server(v.code, v.message)
    }
}

impl From<BitcoinRpcError> for ClientError {
    fn from(value: BitcoinRpcError) -> (r: Self) {
        ClientError::Server(value.code, value.message)
    }
}

/// Error returned when signing a raw transaction with a wallet fails.
#[derive(Debug, Clone, PartialEq)]
pub struct SignRawTransactionWithWalletError {
    /// The transaction ID.
    pub txid: String,
    /// The index of the input.
    pub vout: u32,
    /// The script signature.
    pub script_sig: String,
    /// The sequence number.
    pub sequence: u32,
    /// The error message.
    pub error: String,
}

/// A [`SignRawTransactionWithWalletError`] with its texts as sequences of characters.
pub struct SignRawTransactionWithWalletErrorView {
    pub txid: Seq<char>,
    pub vout: u32,
    pub script_sig: Seq<char>,
    pub sequence: u32,
    pub error: Seq<char>,
}

impl View for SignRawTransactionWithWalletError {
    type V = SignRawTransactionWithWalletErrorView;

    open spec fn view(&self) -> SignRawTransactionWithWalletErrorView {
        SignRawTransactionWithWalletErrorView {
            txid: self.txid@,
            vout: self.vout,
            script_sig: self.script_sig@,
            sequence: self.sequence,
            error: self.error@,
        }
    }
}

impl SignRawTransactionWithWalletErrorView {
    /// The error as it is shown to a user.
    pub open spec fn text(self) -> Seq<char> {
        "error signing raw transaction with wallet: "@ + self.error
    }
}

impl SignRawTransactionWithWalletError {
    /// The error as it is shown to a user.
    pub fn to_text(&self) -> (r: String)
        ensures
            r@ == self@.text(),
    {
        let mut text = String::new();
        text.append("error signing raw transaction with wallet: ");
        text.append(self.error.as_str());
        proof {
            assert(text@ =~= self@.text());
        }
        text
    }
}

impl FromSpecImpl<SignRawTransactionWithWalletError> for ClientError {
    open spec fn obeys_from_spec() -> bool {
        true
    }

    open spec fn from_spec(v: SignRawTransactionWithWalletError) -> ClientError {
        ClientError::Sign(v)
    }
}

impl From<SignRawTransactionWithWalletError> for ClientError {
    fn from(value: SignRawTransactionWithWalletError) -> (r: Self) {
        ClientError::Sign(value)
    }
}

/// Error returned when RPC client expects a different version than bitcoind reports.
#[derive(Debug, Clone, PartialEq)]
pub struct UnexpectedServerVersionError {
    /// Version from server.
    pub got: usize,
    /// Expected server version.
    pub expected: Vec<usize>,
}

/// An [`UnexpectedServerVersionError`] with the expected versions as a sequence.
pub struct UnexpectedServerVersionErrorView {
    pub got: usize,
    pub expected: Seq<usize>,
}

impl View for UnexpectedServerVersionError {
    type V = UnexpectedServerVersionErrorView;

    open spec fn view(&self) -> UnexpectedServerVersionErrorView {
        UnexpectedServerVersionErrorView { got: self.got, expected: self.expected@ }
    }
}

/// The numerals of `versions` in order, each with one space before and one after it.
pub open spec fn version_list(versions: Seq<usize>) -> Seq<char>
    decreases versions.len(),
{
    if versions.len() == 0 {
        seq![]
    } else {
        version_list(versions.drop_last()) + " "@ + crate::text::decimal(versions.last() as nat)
            + " "@
    }
}

impl UnexpectedServerVersionErrorView {
    /// The error as it is shown to a user.
    pub open spec fn text(self) -> Seq<char> {
        "unexpected bitcoind version, got: "@ + crate::text::decimal(self.got as nat)
            + " expected one of: "@ + version_list(self.expected)
    }
}

impl UnexpectedServerVersionError {
    /// The error as it is shown to a user.
    pub fn to_text(&self) -> (r: String)
        ensures
            r@ == self@.text(),
    {
        let mut expected = String::new();
        let mut i: usize = 0;
        while i < self.expected.len()
            invariant
                i <= self.expected.len(),
                expected@ == version_list(self.expected@.take(i as int)),
            decreases self.expected.len() - i,
        {
            expected.append(" ");
            push_decimal(&mut expected, self.expected[i] as u64);
            expected.append(" ");
            proof {
                let longer = self.expected@.take(i + 1);
                assert(longer.drop_last() =~= self.expected@.take(i as int));
                assert(longer.last() == self.expected@[i as int]);
            }
            i = i + 1;
        }
        proof {
            assert(self.expected@.take(i as int) =~= self.expected@);
        }
        let mut text = String::new();
        text.append("unexpected bitcoind version, got: ");
        push_decimal(&mut text, self.got as u64);
        text.append(" expected one of: ");
        text.append(expected.as_str());
        proof {
            assert(text@ =~= self@.text());
        }
        text
    }
}

impl FromSpecImpl<UnexpectedServerVersionError> for ClientError {
    open spec fn obeys_from_spec() -> bool {
        true
    }

    open spec fn from_spec(v: UnexpectedServerVersionError) -> ClientError {
        ClientError::UnexpectedServerVersion(v)
    }
}

impl From<UnexpectedServerVersionError> for ClientError {
    fn from(value: UnexpectedServerVersionError) -> (r: Self) {
        ClientError::UnexpectedServerVersion(value)
    }
}

/// The helpers that look for a code tell the codes apart, and say no to every error that does not
/// come from the server.
pub proof fn rpc_codes_are_told_apart(error: ClientErrorView, a: int, b: int)
    ensures
        error.is_server_error(a) && error.is_server_error(b) ==> a == b,
        !(error is Server) ==> !error.is_server_error(a),
{
}

} // verus!
