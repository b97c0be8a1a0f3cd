use bitcoind_async_client::error::{
    BitcoinRpcError, ClientError, SignRawTransactionWithWalletError, UnexpectedServerVersionError,
};

#[test]
fn classifies_rpc_verify_error() {
    let error = ClientError::Server(-25, "Input not found or already spent".to_string());

    assert!(error.is_rpc_verify_error());
    assert!(error.is_missing_or_invalid_input());
    assert!(!error.is_rpc_verify_rejected());
    assert!(!error.is_rpc_verify_already_in_utxo_set());
}

#[test]
fn classifies_rpc_verify_rejected() {
    let error = ClientError::Server(-26, "txn-already-in-mempool".to_string());

    assert!(error.is_rpc_verify_rejected());
    assert!(!error.is_missing_or_invalid_input());
    assert!(!error.is_rpc_verify_error());
    assert!(!error.is_rpc_verify_already_in_utxo_set());
}

#[test]
fn classifies_rpc_verify_already_in_utxo_set() {
    let error = ClientError::Server(-27, "transaction already in block chain".to_string());

    assert!(error.is_rpc_verify_already_in_utxo_set());
    assert!(!error.is_rpc_verify_error());
    assert!(!error.is_rpc_verify_rejected());
    assert!(!error.is_missing_or_invalid_input());
}

#[test]
fn non_server_errors_do_not_match_rpc_code_helpers() {
    let error = ClientError::Timeout;

    assert!(!error.is_rpc_verify_error());
    assert!(!error.is_rpc_verify_rejected());
    assert!(!error.is_rpc_verify_already_in_utxo_set());
    assert!(!error.is_missing_or_invalid_input());
}

#[test]
fn classifies_missing_transactions_and_blocks() {
    let error = ClientError::Server(-5, "No such mempool transaction".to_string());
    assert!(error.is_tx_not_found());
    assert!(error.is_block_not_found());
    assert!(!error.is_rpc_verify_error());

    let other = ClientError::Server(5, String::new());
    assert!(!other.is_tx_not_found());
    assert!(!other.is_block_not_found());
}

#[test]
fn errors_are_shown_as_text() {
    let s = |t: &str| t.to_string();
    let cases = vec![
        (ClientError::MissingUserPassword, "Missing username or password"),
        (
            ClientError::Server(-25, s("bad")),
            "RPC server returned error 'bad' (code -25)",
        ),
        (
            ClientError::Server(i32::MIN, s("")),
            "RPC server returned error '' (code -2147483648)",
        ),
        (ClientError::Server(0, s("x")), "RPC server returned error 'x' (code 0)"),
        (ClientError::Parse(s("p")), "Error parsing rpc response: p"),
        (ClientError::Param(s("p")), "Could not create RPC Param"),
        (ClientError::Body(s("b")), "b"),
        (
            ClientError::Status(503, s("busy")),
            "Obtained failure status(503): busy",
        ),
        (ClientError::MalformedResponse(s("m")), "Malformed Response: m"),
        (ClientError::Connection(s("c")), "Could not connect: c"),
        (ClientError::Timeout, "Timeout"),
        (ClientError::HttpRedirect(s("h")), "HttpRedirect: h"),
        (ClientError::ReqBuilder(s("r")), "Could not build request: r"),
        (ClientError::MaxRetriesExceeded(300), "Max retries 300 exceeded"),
        (ClientError::Request(s("r")), "Could not create request: r"),
        (
            ClientError::WrongNetworkAddress(bitcoin::Network::Bitcoin),
            "Network address: bitcoin",
        ),
        (
            ClientError::WrongNetworkAddress(bitcoin::Network::Testnet),
            "Network address: testnet",
        ),
        (
            ClientError::WrongNetworkAddress(bitcoin::Network::Testnet4),
            "Network address: testnet4",
        ),
        (
            ClientError::WrongNetworkAddress(bitcoin::Network::Signet),
            "Network address: signet",
        ),
        (
            ClientError::WrongNetworkAddress(bitcoin::Network::Regtest),
            "Network address: regtest",
        ),
        (ClientError::Xpriv, "Could not get xpriv from wallet"),
        (ClientError::Other(s("o")), "o"),
    ];
    for (error, text) in cases {
        assert_eq!(error.to_text(), text);
    }
}

#[test]
fn server_error_shows_code_and_message() {
    let error = BitcoinRpcError { code: -8, message: "Block height out of range".to_string() };
    assert_eq!(error.to_text(), "RPC error -8: Block height out of range");
    assert_eq!(
        ClientError::from(error),
        ClientError::Server(-8, "Block height out of range".to_string())
    );
}

#[test]
fn signing_error_shows_its_message() {
    let error = SignRawTransactionWithWalletError {
        txid: "00".to_string(),
        vout: 1,
        script_sig: String::new(),
        sequence: 0,
        error: "Witness program was passed an empty witness".to_string(),
    };
    let text = "error signing raw transaction with wallet: Witness program was passed an empty witness";
    assert_eq!(error.to_text(), text);
    let wrapped = ClientError::from(error.clone());
    assert_eq!(wrapped.to_text(), text);
    assert_eq!(wrapped, ClientError::Sign(error));
}

#[test]
fn version_error_lists_expected_versions() {
    let error = UnexpectedServerVersionError { got: 280000, expected: vec![290000, 290100] };
    let text = "unexpected bitcoind version, got: 280000 expected one of:  290000  290100 ";
    assert_eq!(error.to_text(), text);
    let wrapped = ClientError::from(error.clone());
    assert_eq!(wrapped.to_text(), text);
    assert_eq!(wrapped, ClientError::UnexpectedServerVersion(error));

    let none = UnexpectedServerVersionError { got: 0, expected: vec![] };
    assert_eq!(none.to_text(), "unexpected bitcoind version, got: 0 expected one of: ");
}

#[test]
fn transport_errors_become_client_errors() {
    let address = bitreq::Error::AddressNotFound;
    let text = address.to_string();
    assert_eq!(ClientError::from(address), ClientError::Connection(text));

    let io = bitreq::Error::IoError(std::io::Error::new(std::io::ErrorKind::Other, "reset"));
    assert_eq!(ClientError::from(io), ClientError::Connection("reset".to_string()));

    for error in vec![
        bitreq::Error::RedirectLocationMissing,
        bitreq::Error::InfiniteRedirectionLoop,
        bitreq::Error::TooManyRedirections,
    ] {
        let text = error.to_string();
        assert_eq!(ClientError::from(error), ClientError::HttpRedirect(text));
    }
    for error in vec![
        bitreq::Error::HeadersOverflow,
        bitreq::Error::StatusLineOverflow,
        bitreq::Error::BodyOverflow,
        bitreq::Error::MalformedChunkLength,
        bitreq::Error::MalformedChunkEnd,
        bitreq::Error::MalformedContentLength,
        bitreq::Error::InvalidUtf8InResponse,
    ] {
        let text = error.to_string();
        assert_eq!(ClientError::from(error), ClientError::MalformedResponse(text));
    }
    for error in vec![bitreq::Error::HttpsFeatureNotEnabled, bitreq::Error::Other("odd")] {
        let text = error.to_string();
        assert_eq!(ClientError::from(error), ClientError::Other(text));
    }
}

#[test]
fn json_errors_become_parse_errors() {
    let error = serde_json::from_str::<bool>("nope").unwrap_err();
    let text = format!("Could not parse {}", error);
    assert_eq!(ClientError::from(error), ClientError::Parse(text));
}
