//! The JSON texts that are sent as form fields.
use crate::text::{decimal, join};
use vstd::prelude::*;

verus! {

/// A value inside a JSON object. `S` is `String` in code and `Seq<char>` in
/// contracts.
pub enum Scalar<S> {
    Text(S),
    Number(i64),
    Flag(bool),
}

impl View for Scalar<String> {
    type V = Scalar<Seq<char>>;

    open spec fn view(&self) -> Scalar<Seq<char>> {
        match *self {
            Scalar::Text(t) => Scalar::Text(t@),
            Scalar::Number(n) => Scalar::Number(n),
            Scalar::Flag(b) => Scalar::Flag(b),
        }
    }
}

/// The fields of an object: names and values.
pub open spec fn fields_view(fields: Seq<(String, Scalar<String>)>) -> Seq<
    (Seq<char>, Scalar<Seq<char>>),
> {
    fields.map_values(|f: (String, Scalar<String>)| (f.0@, f.1@))
}

/// Whether JSON writes `s` between quotes as it stands: no control character,
/// no quote and no backslash in it.
pub open spec fn is_plain(s: Seq<char>) -> bool {
    forall|i: int| 0 <= i < s.len() ==> ' ' <= #[trigger] s[i] && s[i] != '"' && s[i] != '\\'
}

/// Whether `a` stands before `b` in the order of their characters.
pub open spec fn precedes(a: Seq<char>, b: Seq<char>) -> bool {
    exists|k: int|
        0 <= k <= a.len() && k < b.len() && #[trigger] a.take(k) == b.take(k) && (k == a.len()
            || a[k] < b[k])
}

/// Whether each name stands before the next one.
pub open spec fn names_ascend(fields: Seq<(Seq<char>, Scalar<Seq<char>>)>) -> bool {
    forall|i: int, j: int|
        0 <= i < j < fields.len() ==> precedes(#[trigger] fields[i].0, #[trigger] fields[j].0)
}

/// Whether every name and text of `fields` is written as it stands.
pub open spec fn fields_plain(fields: Seq<(Seq<char>, Scalar<Seq<char>>)>) -> bool {
    forall|i: int|
        0 <= i < fields.len() ==> is_plain(#[trigger] fields[i].0) && (fields[i].1 matches Scalar::Text(
            t,
        ) ==> is_plain(t))
}

/// A plain text between quotes.
pub open spec fn quoted(s: Seq<char>) -> Seq<char> {
    seq!['"'] + s + seq!['"']
}

/// The JSON form of a value.
pub open spec fn scalar_text(value: Scalar<Seq<char>>) -> Seq<char> {
    match value {
        Scalar::Text(t) => quoted(t),
        Scalar::Number(n) => decimal(n as int),
        Scalar::Flag(b) => if b {
            "true"@
        } else {
            "false"@
        },
    }
}

/// The compact JSON form of an object, with its fields in the given order.
pub open spec fn object_text(fields: Seq<(Seq<char>, Scalar<Seq<char>>)>) -> Seq<char> {
    seq!['{'] + join(
        fields.map_values(
            |f: (Seq<char>, Scalar<Seq<char>>)| quoted(f.0) + seq![':'] + scalar_text(f.1),
        ),
        seq![','],
    ) + seq!['}']
}

/// `serde_json::Value::to_string` on a `serde_json::Map` collected from
/// `fields`: the compact form of the object. The map writes its fields in the
/// order of their names, which is the given one, and writes plain texts as
/// they stand.
#[verifier::external_body]
pub(crate) fn json_object(fields: Vec<(String, Scalar<String>)>) -> (text: String)
    requires
        names_ascend(fields_view(fields@)),
        fields_plain(fields_view(fields@)),
    ensures
        text@ == object_text(fields_view(fields@)),
{
    let map: serde_json::Map<String, serde_json::Value> = fields
        .into_iter()
        .map(|(name, value)| match value {
            Scalar::Text(t) => (name, serde_json::Value::from(t)),
            Scalar::Number(n) => (name, serde_json::Value::from(n)),
            Scalar::Flag(b) => (name, serde_json::Value::from(b)),
        })
        .collect();
    serde_json::Value::Object(map).to_string()
}

}
