//! What errors are shown as, and what they are told apart by.
//!
//! `call_ensures(f, args, r)` says that `r` is what `f` gave back for `args`.
use vstd::prelude::*;

use crate::error::{
    BitcoinRpcError, ClientError, SignRawTransactionWithWalletError, UnexpectedServerVersionError,
};
use crate::reading::{numerals_are_read_back, writes_number};
use crate::text::{decimal, displays_as, signed_decimal};

verus! {

/// Whether `text` writes `n`, with a minus sign in front where it is negative.
pub open spec fn writes_integer(text: Seq<char>, n: int) -> bool {
    if n < 0 {
        text.len() > 0 && text[0] == '-' && writes_number(text.skip(1), (-n) as nat)
    } else {
        writes_number(text, n as nat)
    }
}

/// A numeral with its sign stands for its number.
proof fn lemma_integer(n: int)
    ensures
        writes_integer(signed_decimal(n), n),
{
    reveal_strlit("-");
    if n < 0 {
        numerals_are_read_back((-n) as nat);
        assert(signed_decimal(n).skip(1) =~= decimal((-n) as nat));
    } else {
        numerals_are_read_back(n as nat);
    }
}

/// Whether `text` is a number between two other texts.
pub open spec fn shows_number(text: Seq<char>, before: Seq<char>, n: int, after: Seq<char>) -> bool {
    exists|digits: Seq<char>| #[trigger]
        writes_integer(digits, n) && text == before + digits + after
}

/// An error without details is shown as its name, and one with a text as what went wrong and that
/// text, whole.
pub proof fn messages_show_their_details(error: ClientError, r: String)
    requires
        call_ensures(ClientError::to_text, (&error,), r),
    ensures
        match error {
            ClientError::MissingUserPassword => r@ == "Missing username or password"@,
            ClientError::Parse(text) => r@ == "Error parsing rpc response: "@ + text@,
            ClientError::Param(_) => r@ == "Could not create RPC Param"@,
            ClientError::Body(text) => r@ == text@,
            ClientError::MalformedResponse(text) => r@ == "Malformed Response: "@ + text@,
            ClientError::Connection(text) => r@ == "Could not connect: "@ + text@,
            ClientError::Timeout => r@ == "Timeout"@,
            ClientError::HttpRedirect(text) => r@ == "HttpRedirect: "@ + text@,
            ClientError::ReqBuilder(text) => r@ == "Could not build request: "@ + text@,
            ClientError::Request(text) => r@ == "Could not create request: "@ + text@,
            ClientError::Xpriv => r@ == "Could not get xpriv from wallet"@,
            ClientError::Other(text) => r@ == text@,
            _ => true,
        },
{
}

/// An error with a number is shown with that number in decimal digits, whatever it is.
pub proof fn messages_show_their_numbers(error: ClientError, r: String)
    requires
        call_ensures(ClientError::to_text, (&error,), r),
    ensures
        match error {
            ClientError::Server(code, message) => shows_number(
                r@,
                "RPC server returned error '"@ + message@ + "' (code "@,
                code as int,
                ")"@,
            ),
            ClientError::Status(code, text) => shows_number(
                r@,
                "Obtained failure status("@,
                code as int,
                "): "@ + text@,
            ),
            ClientError::MaxRetriesExceeded(n) => shows_number(
                r@,
                "Max retries "@,
                n as int,
                " exceeded"@,
            ),
            _ => true,
        },
{
    match error {
        ClientError::Server(code, message) => {
            lemma_integer(code as int);
            assert(r@ =~= "RPC server returned error '"@ + message@ + "' (code "@ + signed_decimal(
                code as int,
            ) + ")"@);
        },
        ClientError::Status(code, text) => {
            lemma_integer(code as int);
            assert(r@ =~= "Obtained failure status("@ + signed_decimal(code as int) + ("): "@
                + text@));
        },
        ClientError::MaxRetriesExceeded(n) => {
            lemma_integer(n as int);
            assert(r@ =~= "Max retries "@ + signed_decimal(n as int) + " exceeded"@);
        },
        _ => {},
    }
}

/// A wrong network is shown under its name.
pub proof fn messages_name_the_network(network: bitcoin::Network, r: String)
    requires
        call_ensures(ClientError::to_text, (&ClientError::WrongNetworkAddress(network),), r),
    ensures
        r@ == "Network address: "@ + match network {
            bitcoin::Network::Bitcoin => "bitcoin"@,
            bitcoin::Network::Testnet => "testnet"@,
            bitcoin::Network::Testnet4 => "testnet4"@,
            bitcoin::Network::Signet => "signet"@,
            bitcoin::Network::Regtest => "regtest"@,
        },
{
}

/// An error that was taken up is shown as it is shown by itself.
pub proof fn messages_of_other_errors_are_kept(
    version: UnexpectedServerVersionError,
    sign: SignRawTransactionWithWalletError,
    alone: (String, String),
    r: (String, String),
)
    requires
        call_ensures(UnexpectedServerVersionError::to_text, (&version,), alone.0),
        call_ensures(SignRawTransactionWithWalletError::to_text, (&sign,), alone.1),
        call_ensures(ClientError::to_text, (&ClientError::UnexpectedServerVersion(version),), r.0),
        call_ensures(ClientError::to_text, (&ClientError::Sign(sign),), r.1),
    ensures
        r.0@ == alone.0@,
        r.1@ == alone.1@,
        r.1@ == "error signing raw transaction with wallet: "@ + sign.error@,
{
}

/// An unexpected version is shown with the version that was got.
pub proof fn versions_show_what_was_got(error: UnexpectedServerVersionError, r: String)
    requires
        call_ensures(UnexpectedServerVersionError::to_text, (&error,), r),
        error.expected@.len() == 0,
    ensures
        shows_number(
            r@,
            "unexpected bitcoind version, got: "@,
            error.got as int,
            " expected one of: "@,
        ),
{
    lemma_integer(error.got as int);
    assert(r@ =~= "unexpected bitcoind version, got: "@ + signed_decimal(error.got as int)
        + " expected one of: "@);
}

/// One more version that is expected is shown behind the others, with a space on either side.
pub proof fn versions_show_all_that_are_expected(
    error: UnexpectedServerVersionError,
    longer: UnexpectedServerVersionError,
    version: usize,
    r: (String, String),
)
    requires
        call_ensures(UnexpectedServerVersionError::to_text, (&error,), r.0),
        call_ensures(UnexpectedServerVersionError::to_text, (&longer,), r.1),
        longer.got == error.got,
        longer.expected@ == error.expected@.push(version),
    ensures
        shows_number(r.1@, r.0@ + " "@, version as int, " "@),
{
    lemma_integer(version as int);
    assert(longer.expected@.drop_last() =~= error.expected@);
    assert(longer.expected@.last() == version);
    assert(r.1@ =~= (r.0@ + " "@) + signed_decimal(version as int) + " "@);
}

/// An error that the server reported is shown with its code and its message.
pub proof fn reported_errors_are_shown(error: BitcoinRpcError, r: String)
    requires
        call_ensures(BitcoinRpcError::to_text, (&error,), r),
    ensures
        shows_number(r@, "RPC error "@, error.code as int, ": "@ + error.message@),
{
    lemma_integer(error.code as int);
    assert(r@ =~= "RPC error "@ + signed_decimal(error.code as int) + (": "@ + error.message@));
}

/// An error that the server reported keeps its code and its message, and other errors are taken up
/// as they are.
pub proof fn other_errors_are_taken_up(
    reported: BitcoinRpcError,
    sign: SignRawTransactionWithWalletError,
    version: UnexpectedServerVersionError,
    r: (ClientError, ClientError, ClientError),
)
    requires
        call_ensures(<ClientError as From<BitcoinRpcError>>::from, (reported,), r.0),
        call_ensures(<ClientError as From<SignRawTransactionWithWalletError>>::from, (sign,), r.1),
        call_ensures(<ClientError as From<UnexpectedServerVersionError>>::from, (version,), r.2),
    ensures
        r.0 matches ClientError::Server(code, message) && code == reported.code && message
            == reported.message,
        r.1 == ClientError::Sign(sign),
        r.2 == ClientError::UnexpectedServerVersion(version),
{
}

/// A text that could not be parsed says why.
pub proof fn parse_errors_say_why(error: serde_json::Error, r: ClientError)
    requires
        call_ensures(<ClientError as From<serde_json::Error>>::from, (error,), r),
    ensures
        r matches ClientError::Parse(text) && exists|detail: Seq<char>| #[trigger]
            displays_as(&error, detail) && text@ == "Could not parse "@ + detail,
{
}

/// Whether the server reported `error` with this code.
pub open spec fn has_code(error: ClientError, number: int) -> bool {
    error matches ClientError::Server(code, _) && code == number
}

/// Each of the helpers says yes to one code of the server, whatever the message, and to nothing
/// else.
pub proof fn helpers_go_by_the_code(error: ClientError, r: (bool, bool, bool, bool, bool, bool))
    requires
        call_ensures(ClientError::is_tx_not_found, (&error,), r.0),
        call_ensures(ClientError::is_block_not_found, (&error,), r.1),
        call_ensures(ClientError::is_rpc_verify_error, (&error,), r.2),
        call_ensures(ClientError::is_rpc_verify_rejected, (&error,), r.3),
        call_ensures(ClientError::is_rpc_verify_already_in_utxo_set, (&error,), r.4),
        call_ensures(ClientError::is_missing_or_invalid_input, (&error,), r.5),
    ensures
        r.0 <==> has_code(error, -5),
        r.1 <==> has_code(error, -5),
        r.2 <==> has_code(error, -25),
        r.3 <==> has_code(error, -26),
        r.4 <==> has_code(error, -27),
        r.5 <==> has_code(error, -25),
{
}

} // verus!
