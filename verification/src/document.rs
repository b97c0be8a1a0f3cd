//! JSON documents as [`serde_json`] holds and writes them.
use vstd::prelude::*;
use vstd::utf8::encode_utf8;

use crate::text::decimal;

verus! {

/// What a JSON document holds, written as compact JSON: the characters that
/// [`serde_json::to_vec`] writes for it.
pub uninterp spec fn json_text(value: serde_json::Value) -> Seq<char>;

/// The lower-case hexadecimal digit of `d`.
pub open spec fn hex_char(d: nat) -> char
    recommends
        d < 16,
{
    if d < 10 {
        ('0' as nat + d) as char
    } else {
        ('a' as nat + d - 10) as char
    }
}

/// A character as it stands inside a JSON string.
pub open spec fn escaped_char(c: char) -> Seq<char> {
    if c == '"' || c == '\\' {
        seq!['\\', c]
    } else if c as nat == 0x08 {
        seq!['\\', 'b']
    } else if c == '\t' {
        seq!['\\', 't']
    } else if c == '\n' {
        seq!['\\', 'n']
    } else if c as nat == 0x0c {
        seq!['\\', 'f']
    } else if c == '\r' {
        seq!['\\', 'r']
    } else if (c as nat) < 0x20 {
        seq!['\\', 'u', '0', '0', hex_char(c as nat / 16), hex_char(c as nat % 16)]
    } else {
        seq![c]
    }
}

/// The characters of `s` as they stand inside a JSON string.
pub open spec fn escaped(s: Seq<char>) -> Seq<char>
    decreases s.len(),
{
    if s.len() == 0 {
        seq![]
    } else {
        escaped(s.drop_last()) + escaped_char(s.last())
    }
}

/// The JSON string that stands for `s`.
pub open spec fn string_text(s: Seq<char>) -> Seq<char> {
    seq!['"'] + escaped(s) + seq!['"']
}

/// `parts` one after the other, with a comma between neighbours.
pub open spec fn comma_separated(parts: Seq<Seq<char>>) -> Seq<char>
    decreases parts.len(),
{
    if parts.len() == 0 {
        seq![]
    } else if parts.len() == 1 {
        parts[0]
    } else {
        comma_separated(parts.drop_last()) + seq![','] + parts.last()
    }
}

/// The JSON array of the given items, each already JSON text.
pub open spec fn array_text(items: Seq<Seq<char>>) -> Seq<char> {
    seq!['['] + comma_separated(items) + seq![']']
}

/// The JSON object with the given members in order: names, and values that are already JSON text.
pub open spec fn object_text(members: Seq<(Seq<char>, Seq<char>)>) -> Seq<char> {
    seq!['{'] + comma_separated(
        members.map_values(
            |m: (Seq<char>, Seq<char>)| string_text(m.0) + seq![':'] + m.1,
        ),
    ) + seq!['}']
}

/// The JSON texts of `values`.
pub open spec fn json_texts(values: Seq<serde_json::Value>) -> Seq<Seq<char>> {
    values.map_values(|v: serde_json::Value| json_text(v))
}

/// The names and JSON texts of `members`.
pub open spec fn member_texts(members: Seq<(String, serde_json::Value)>) -> Seq<
    (Seq<char>, Seq<char>),
> {
    members.map_values(|m: (String, serde_json::Value)| (m.0@, json_text(m.1)))
}

/// Whether the names of `members` begin with characters that rise strictly from each name to the
/// next: they are then all different, and in alphabetical order.
pub open spec fn initials_rise(members: Seq<(String, serde_json::Value)>) -> bool {
    &&& forall|i: int| 0 <= i < members.len() ==> (#[trigger] members[i]).0@.len() > 0
    &&& forall|i: int, j: int|
        0 <= i < j < members.len() ==> (#[trigger] members[i]).0@[0] < (#[trigger] members[j]).0@[0]
}

/// Calls `serde_json::Value::from` on a string: the document is that string, and is written as a
/// JSON string in which `"`, `\` and the characters below `U+0020` are escaped.
#[verifier::external_body]
pub(crate) fn string_value(s: &str) -> (r: serde_json::Value)
    ensures
        json_text(r) == string_text(s@),
{
    serde_json::Value::from(s)
}

/// Calls `serde_json::Value::from` on a number: the document is that number, and is written as its
/// decimal numeral.
#[verifier::external_body]
pub(crate) fn number_value(n: usize) -> (r: serde_json::Value)
    ensures
        json_text(r) == decimal(n as nat),
{
    serde_json::Value::from(n)
}

/// Calls `serde_json::Value::from` on a slice: the document is the array of clones of the items, in
/// their order, and is written with a comma between neighbours.
#[verifier::external_body]
pub(crate) fn array_value(items: &[serde_json::Value]) -> (r: serde_json::Value)
    ensures
        json_text(r) == array_text(json_texts(items@)),
{
    serde_json::Value::from(items)
}

/// Collects members into a [`serde_json::Value`] by its `FromIterator`: the document is the object
/// of these members. An object is written in alphabetical order of the names, which is the order
/// of `members`.
#[verifier::external_body]
pub(crate) fn object_value(members: Vec<(String, serde_json::Value)>) -> (r: serde_json::Value)
    requires
        initials_rise(members@),
    ensures
        json_text(r) == object_text(member_texts(members@)),
{
    members.into_iter().collect()
}

/// Calls [`serde_json::to_vec`]: it writes the document as compact JSON in UTF-8. Writing a
/// [`serde_json::Value`] to memory does not fail: every name in it is a string.
#[verifier::external_body]
pub(crate) fn to_vec(value: &serde_json::Value) -> (r: Result<Vec<u8>, serde_json::Error>)
    ensures
        r is Ok,
        r->Ok_0@ == encode_utf8(json_text(*value)),
{
    serde_json::to_vec(value)
}

} // verus!
