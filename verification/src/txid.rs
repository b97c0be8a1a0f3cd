//! Transaction ids, and the text they are written as.
use vstd::prelude::*;

use crate::document::hex_char;

verus! {

/// A transaction id: the bytes of a transaction's hash.
#[derive(Clone, Copy, Debug, PartialEq, Eq)]
pub struct Txid {
    pub hash: [u8; 32],
}

/// Whether `c` is a hexadecimal digit, in either case.
pub open spec fn is_hex_digit(c: char) -> bool {
    '0' <= c <= '9' || 'a' <= c <= 'f' || 'A' <= c <= 'F'
}

/// The value of a hexadecimal digit.
pub open spec fn hex_value(c: char) -> nat
    recommends
        is_hex_digit(c),
{
    if '0' <= c <= '9' {
        (c as nat - '0' as nat) as nat
    } else if 'a' <= c <= 'f' {
        (c as nat - 'a' as nat + 10) as nat
    } else {
        (c as nat - 'A' as nat + 10) as nat
    }
}

/// Whether `text` is a transaction id: 64 hexadecimal digits.
pub open spec fn is_txid_text(text: Seq<char>) -> bool {
    text.len() == 64 && forall|i: int| 0 <= i < 64 ==> is_hex_digit(#[trigger] text[i])
}

/// The hash whose transaction id is written as `text`: two digits to a byte, the last byte first.
pub open spec fn txid_hash(text: Seq<char>) -> Seq<u8> {
    Seq::new(
        32,
        |i: int| (16 * hex_value(text[62 - 2 * i]) + hex_value(text[63 - 2 * i])) as u8,
    )
}

/// The text of the transaction id with the given hash: two lower-case digits to a byte, the last
/// byte first.
pub open spec fn txid_text(hash: Seq<u8>) -> Seq<char> {
    Seq::new(
        64,
        |i: int|
            if i % 2 == 0 {
                hex_char(hash[31 - i / 2] as nat / 16)
            } else {
                hex_char(hash[31 - i / 2] as nat % 16)
            },
    )
}

/// Parses a [`bitcoin::Txid`] and takes its bytes. A transaction id is 64 hexadecimal digits, in
/// either case, which write the bytes of the hash in reverse order; nothing else is one.
#[verifier::external_body]
fn parse_hash(text: &str) -> (r: Option<[u8; 32]>)
    ensures
        r is Some <==> is_txid_text(text@),
        r matches Some(hash) ==> hash@ == txid_hash(text@),
{
    text.parse::<bitcoin::Txid>().ok().map(|txid| *AsRef::<[u8; 32]>::as_ref(&txid))
}

/// Displays the [`bitcoin::Txid`] with the given bytes: lower-case hexadecimal digits, the bytes in
/// reverse order.
#[verifier::external_body]
fn hash_text(hash: [u8; 32]) -> (r: String)
    ensures
        r@ == txid_text(hash@),
{
    let txid: bitcoin::Txid = bitcoin::hashes::Hash::from_byte_array(hash);
    txid.to_string()
}

impl Txid {
    /// The transaction id that `text` is, if it is one.
    pub fn parse(text: &str) -> (r: Option<Txid>)
        ensures
            r is Some <==> is_txid_text(text@),
            r matches Some(txid) ==> txid.hash@ == txid_hash(text@),
    {
        match parse_hash(text) {
            Some(hash) => Some(Txid { hash }),
            None => None,
        }
    }

    /// The transaction id as text.
    pub fn to_text(&self) -> (r: String)
        ensures
            r@ == txid_text(self.hash@),
    {
        hash_text(self.hash)
    }
}

/// Reads a transaction id from its text.
pub fn deserialize_txid(text: &str) -> (r: Txid)
    requires
        is_txid_text(text@),
    ensures
        r.hash@ == txid_hash(text@),
{
    Txid::parse(text).unwrap()
}

/// A hexadecimal digit has the value that it was made for.
proof fn lemma_hex_value(d: nat)
    requires
        d < 16,
    ensures
        is_hex_digit(hex_char(d)),
        hex_value(hex_char(d)) == d,
{
}

/// Reading the text of a transaction id gives the transaction id back.
pub proof fn txid_round_trips(txid: Txid)
    ensures
        is_txid_text(txid_text(txid.hash@)),
        txid_hash(txid_text(txid.hash@)) == txid.hash@,
{
    let text = txid_text(txid.hash@);
    assert forall|i: int| 0 <= i < 64 implies is_hex_digit(#[trigger] text[i]) by {
        let b = txid.hash@[31 - i / 2] as nat;
        lemma_hex_value(b / 16);
        lemma_hex_value(b % 16);
    }
    assert forall|i: int| 0 <= i < 32 implies #[trigger] txid_hash(text)[i] == txid.hash@[i] by {
        let b = txid.hash@[i] as nat;
        lemma_hex_value(b / 16);
        lemma_hex_value(b % 16);
        assert((62 - 2 * i) % 2 == 0 && (62 - 2 * i) / 2 == 31 - i);
        assert((63 - 2 * i) % 2 == 1 && (63 - 2 * i) / 2 == 31 - i);
        assert(text[62 - 2 * i] == hex_char(b / 16));
        assert(text[63 - 2 * i] == hex_char(b % 16));
    }
    assert(txid_hash(text) =~= txid.hash@);
}

} // verus!
