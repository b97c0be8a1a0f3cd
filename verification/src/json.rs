//! JSON values as the arguments of RPC methods are written, with their numbers kept exact.
use vstd::prelude::*;

verus! {

/// A quotient of two integers, standing for the JSON number that is their quotient in floating
/// point.
#[derive(Clone, Copy, Debug, PartialEq, Eq)]
pub struct Ratio {
    pub numerator: u64,
    pub denominator: u64,
}

/// A JSON value.
#[derive(Debug)]
pub enum Json {
    Null,
    Bool(bool),
    /// An integer.
    Unsigned(u64),
    /// A quotient.
    Ratio(Ratio),
    /// An amount in satoshi, written in BTC.
    Btc(u64),
    /// A number that the caller gave.
    Number(serde_json::Number),
    String(String),
    Array(Vec<Json>),
    /// Names and values, in the order in which they are written.
    Object(Vec<(String, Json)>),
}

/// A [`Json`] with its texts and lists as sequences.
pub enum JsonView {
    Null,
    Bool(bool),
    Unsigned(nat),
    Ratio(nat, nat),
    /// An amount in satoshi, written in BTC.
    Btc(nat),
    Number(serde_json::Number),
    String(Seq<char>),
    Array(Seq<JsonView>),
    Object(Seq<(Seq<char>, JsonView)>),
}

impl View for Json {
    type V = JsonView;

    open spec fn view(&self) -> JsonView
        decreases self,
    {
        match *self {
            Json::Null => JsonView::Null,
            Json::Bool(b) => JsonView::Bool(b),
            Json::Unsigned(n) => JsonView::Unsigned(n as nat),
            Json::Ratio(q) => JsonView::Ratio(q.numerator as nat, q.denominator as nat),
            Json::Btc(sat) => JsonView::Btc(sat as nat),
            Json::Number(n) => JsonView::Number(n),
            Json::String(s) => JsonView::String(s@),
            Json::Array(items) => JsonView::Array(
                Seq::new(
                    items@.len(),
                    |i: int|
                        if 0 <= i < items@.len() {
                            items@[i].view()
                        } else {
                            JsonView::Null
                        },
                ),
            ),
            Json::Object(members) => JsonView::Object(
                Seq::new(
                    members@.len(),
                    |i: int|
                        if 0 <= i < members@.len() {
                            (members@[i].0@, members@[i].1.view())
                        } else {
                            (seq![], JsonView::Null)
                        },
                ),
            ),
        }
    }
}

impl JsonView {
    /// The numerator and the denominator of a number that is written as a quotient.
    pub open spec fn quotient(self) -> Option<(nat, nat)> {
        match self {
            JsonView::Ratio(numerator, denominator) => Some((numerator, denominator)),
            JsonView::Btc(sat) => Some((sat, 100_000_000)),
            _ => None,
        }
    }
}

/// The items of an array.
pub open spec fn items_view(items: Seq<Json>) -> Seq<JsonView> {
    items.map_values(|item: Json| item@)
}

/// The members of an object.
pub open spec fn members_view(members: Seq<(String, Json)>) -> Seq<(Seq<char>, JsonView)> {
    members.map_values(|member: (String, Json)| (member.0@, member.1@))
}

/// The member `name`, where there is a value for it.
pub open spec fn optional_member(name: Seq<char>, value: Option<JsonView>) -> Seq<
    (Seq<char>, JsonView),
> {
    match value {
        Some(v) => seq![(name, v)],
        None => seq![],
    }
}

/// The value, or `null`.
pub open spec fn or_null(value: Option<JsonView>) -> JsonView {
    match value {
        Some(v) => v,
        None => JsonView::Null,
    }
}

/// The array of the given items.
pub(crate) fn array(items: Vec<Json>) -> (r: Json)
    ensures
        r@ == JsonView::Array(items_view(items@)),
{
    let r = Json::Array(items);
    proof {
        reveal_with_fuel(<Json as View>::view, 2);
        assert(r@->Array_0 =~= items_view(items@));
    }
    r
}

/// The object of the given members.
pub(crate) fn object(members: Vec<(String, Json)>) -> (r: Json)
    ensures
        r@ == JsonView::Object(members_view(members@)),
{
    let r = Json::Object(members);
    proof {
        reveal_with_fuel(<Json as View>::view, 2);
        assert(r@->Object_0 =~= members_view(members@));
    }
    r
}

/// Adds the member `name`.
pub(crate) fn push_member(members: &mut Vec<(String, Json)>, name: &str, value: Json)
    ensures
        members_view(final(members)@) == members_view(old(members)@).push((name@, value@)),
{
    members.push((name.to_string(), value));
    proof {
        assert(members_view(members@) =~= members_view(old(members)@).push((name@, value@)));
    }
}

/// Adds the member `name` where there is a value for it.
pub(crate) fn push_optional_member(members: &mut Vec<(String, Json)>, name: &str, value: Option<Json>)
    ensures
        members_view(final(members)@) == members_view(old(members)@) + optional_member(
            name@,
            optional_view(value),
        ),
{
    if let Some(v) = value {
        push_member(members, name, v);
    }
    proof {
        assert(members_view(members@) =~= members_view(old(members)@) + optional_member(
            name@,
            optional_view(value),
        ));
    }
}

/// An optional [`Json`] as an optional [`JsonView`].
pub open spec fn optional_view(value: Option<Json>) -> Option<JsonView> {
    match value {
        Some(v) => Some(v@),
        None => None,
    }
}

/// The value, or `null`.
pub(crate) fn unwrap_or_null(value: Option<Json>) -> (r: Json)
    ensures
        r@ == or_null(optional_view(value)),
{
    match value {
        Some(v) => v,
        None => Json::Null,
    }
}

/// An optional truth value.
pub open spec fn bool_view(value: Option<bool>) -> Option<JsonView> {
    match value {
        Some(b) => Some(JsonView::Bool(b)),
        None => None,
    }
}

/// An optional truth value.
pub(crate) fn bool_json(value: Option<bool>) -> (r: Option<Json>)
    ensures
        optional_view(r) == bool_view(value),
{
    match value {
        Some(b) => Some(Json::Bool(b)),
        None => None,
    }
}

/// An optional integer.
pub open spec fn u32_view(value: Option<u32>) -> Option<JsonView> {
    match value {
        Some(n) => Some(JsonView::Unsigned(n as nat)),
        None => None,
    }
}

/// An optional integer.
pub(crate) fn u32_json(value: Option<u32>) -> (r: Option<Json>)
    ensures
        optional_view(r) == u32_view(value),
{
    match value {
        Some(n) => Some(Json::Unsigned(n as u64)),
        None => None,
    }
}

/// An optional integer.
pub open spec fn u16_view(value: Option<u16>) -> Option<JsonView> {
    match value {
        Some(n) => Some(JsonView::Unsigned(n as nat)),
        None => None,
    }
}

/// An optional integer.
pub(crate) fn u16_json(value: Option<u16>) -> (r: Option<Json>)
    ensures
        optional_view(r) == u16_view(value),
{
    match value {
        Some(n) => Some(Json::Unsigned(n as u64)),
        None => None,
    }
}

/// An optional text.
pub open spec fn text_view(value: Option<String>) -> Option<JsonView> {
    match value {
        Some(s) => Some(JsonView::String(s@)),
        None => None,
    }
}

/// An optional text.
pub(crate) fn text_json(value: &Option<String>) -> (r: Option<Json>)
    ensures
        optional_view(r) == text_view(*value),
{
    match value {
        Some(s) => Some(Json::String(s.clone())),
        None => None,
    }
}

} // verus!
