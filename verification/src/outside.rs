//! Declarations of the types of other crates that values of this library hold.
use bitreq::Client as BitreqClient;
use vstd::prelude::*;

verus! {

/// [`bitreq::Error`], variant by variant: the verifier reads the enum itself.
#[verifier::external_type_specification]
pub struct ExBitreqError(bitreq::Error);

/// [`bitreq::UrlParseError`], carried inside a [`bitreq::Error`] and never looked into.
#[verifier::external_type_specification]
#[verifier::external_body]
pub struct ExUrlParseError(bitreq::UrlParseError);

/// [`rustls::Error`], carried inside a [`bitreq::Error`] and never looked into.
#[verifier::external_type_specification]
#[verifier::external_body]
pub struct ExRustlsError(rustls::Error);

/// [`std::io::Error`], carried inside a [`bitreq::Error`] and never looked into.
#[verifier::external_type_specification]
#[verifier::external_body]
pub struct ExIoError(std::io::Error);

/// [`std::str::Utf8Error`], carried inside a [`bitreq::Error`] and never looked into.
#[verifier::external_type_specification]
#[verifier::external_body]
pub struct ExUtf8Error(std::str::Utf8Error);

/// [`bitcoin::Network`], variant by variant: the verifier reads the enum itself.
#[verifier::external_type_specification]
pub struct ExNetwork(bitcoin::Network);

/// `Clone` of [`bitcoin::Network`], a `Copy` enum without fields: the clone is the network itself.
pub assume_specification[ <bitcoin::Network as Clone>::clone ](network: &bitcoin::Network) -> (r:
    bitcoin::Network)
    ensures
        r == *network,
;

/// [`serde_json::Error`], carried through and never looked into.
#[verifier::external_type_specification]
#[verifier::external_body]
pub struct ExJsonError(serde_json::Error);

/// [`serde_json::Value`], a JSON document; [`crate::document::json_text`] names what it holds.
#[verifier::external_type_specification]
#[verifier::external_body]
pub struct ExJsonValue(serde_json::Value);

/// [`serde_json::Number`], carried through and never looked into.
#[verifier::external_type_specification]
#[verifier::external_body]
pub struct ExJsonNumber(serde_json::Number);

/// `Clone` of [`serde_json::Number`]: the clone is the same number.
pub assume_specification[ <serde_json::Number as Clone>::clone ](number: &serde_json::Number) -> (r:
    serde_json::Number)
    ensures
        r == *number,
;

/// [`std::path::PathBuf`], carried through and never looked into.
#[verifier::external_type_specification]
#[verifier::external_body]
pub struct ExPathBuf(std::path::PathBuf);

/// `Clone` of [`std::path::PathBuf`]: the clone is the same path.
pub assume_specification[ <std::path::PathBuf as Clone>::clone ](path: &std::path::PathBuf) -> (r:
    std::path::PathBuf)
    ensures
        r == *path,
;

/// [`bitreq::Client`], a pool of connections; [`crate::client::pool_capacity`] names how many it
/// keeps.
#[verifier::external_type_specification]
#[verifier::external_body]
pub struct ExBitreqClient(BitreqClient);

/// [`tokio::sync::Semaphore`], a pool of permits; [`crate::client::initial_permits`] names how many
/// it was made with.
#[verifier::external_type_specification]
#[verifier::external_body]
pub struct ExSemaphore(tokio::sync::Semaphore);

} // verus!
