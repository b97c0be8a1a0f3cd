//! A JSON-RPC client for `bitcoind`: the decisions it takes, with their contracts.
//!
//! Nothing here reads a file, opens a socket or waits. A driver does that, and asks this library
//! what to send, what a reply means, and whether to try again.
//!
//! - [`client`] makes a client and carries a call from the permit to send it to its result;
//! - [`error`] holds the errors of the client, and tells what a transport error means;
//! - [`types`] holds the arguments of RPC methods, and writes them as JSON;
//! - [`json`], [`document`], [`txid`] and [`text`] hold what these are written in;
//! - [`reading`] says how JSON text is read, [`arguments`] and [`messages`] what holds of the texts
//!   that are written, and `outcomes` and `answers` in [`client`] what holds of a call;
//! - [`outside`] declares the types of other crates.

pub mod arguments;
pub mod client;
pub mod document;
pub mod error;
pub mod json;
pub mod messages;
pub mod outside;
pub mod reading;
pub mod text;
pub mod txid;
pub mod types;
