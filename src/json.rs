//! The boundary with serde_json: parsing and quoting JSON text.

use vstd::prelude::*;

verus! {

#[verifier::external_type_specification]
#[verifier::external_body]
pub struct ExValue(serde_json::Value);

/// A JSON string literal that holds the given text, quotes and escapes included.
pub uninterp spec fn json_quoted(text: Seq<char>) -> Seq<char>;

/// Whether a text is one well-formed JSON value.
pub uninterp spec fn json_parses(text: Seq<char>) -> bool;

/// The members of a JSON object, in the order serde_json hands them out, or
/// `None` when the bytes are not a JSON object.
pub uninterp spec fn object_members(body: Seq<u8>) -> Option<Seq<(Seq<char>, MemberValue)>>;

/// What a request decoder needs to know of a member's value.
pub ghost enum MemberValue {
    Text(Seq<char>),
    Null,
    Other,
}

/// A member's value: a string, `null`, or anything else.
pub enum JsonField {
    Text(String),
    Null,
    Other,
}

impl View for JsonField {
    type V = MemberValue;

    open spec fn view(&self) -> MemberValue {
        match self {
            JsonField::Text(s) => MemberValue::Text(s@),
            JsonField::Null => MemberValue::Null,
            JsonField::Other => MemberValue::Other,
        }
    }
}

pub open spec fn members_view(ms: Seq<(String, JsonField)>) -> Seq<(Seq<char>, MemberValue)> {
    Seq::new(ms.len(), |i: int| (ms[i].0@, ms[i].1@))
}

/// Relies on serde_json's `From<&str>` for `Value` and its `Display`, which
/// writes a string value as one quoted, escaped JSON literal.
#[verifier::external_body]
pub(crate) fn quote(text: &str) -> (r: String)
    ensures
        r@ == json_quoted(text@),
{
    serde_json::Value::from(text).to_string()
}

/// Relies on `serde_json::from_str::<Value>`: it succeeds exactly on
/// well-formed JSON text; the error is kept as its message.
#[verifier::external_body]
pub(crate) fn parse_value(text: &str) -> (r: Result<serde_json::Value, String>)
    ensures
        r is Ok <==> json_parses(text@),
{
    serde_json::from_str::<serde_json::Value>(text).map_err(|e| e.to_string())
}

/// Relies on `serde_json::from_slice` into a `Map<String, Value>`, which
/// succeeds only on a JSON object; each member keeps its name, and its value
/// is told apart as a string, `null`, or anything else.
#[verifier::external_body]
pub(crate) fn parse_object(body: &[u8]) -> (r: Option<Vec<(String, JsonField)>>)
    ensures
        r is Some <==> object_members(body@) is Some,
        r is Some ==> members_view(r->Some_0@) == object_members(body@)->Some_0,
{
    let map: serde_json::Map<String, serde_json::Value> = serde_json::from_slice(body).ok()?;
    let mut members = Vec::new();
    for (name, value) in map {
        let field = match value {
            serde_json::Value::String(s) => JsonField::Text(s),
            serde_json::Value::Null => JsonField::Null,
            _ => JsonField::Other,
        };
        members.push((name, field));
    }
    Some(members)
}

} // verus!
