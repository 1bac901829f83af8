//! JSON values as this crate reads and builds them.
//!
//! Documents are held as `serde_json::Value`. Verification does not look
//! inside that type; it reasons about the mathematical tree `Json` that a
//! value stands for, and the few `serde_json` operations used here are
//! described in terms of that tree.

use vstd::prelude::*;

verus! {

/// `serde_json::Value`, taken as it is: nothing is known of a value but the
/// tree it stands for.
#[verifier::external_type_specification]
#[verifier::external_body]
pub struct ExJsonValue(serde_json::Value);

/// The mathematical content of a JSON value.
///
/// The members of an object are kept in the order in which the value holds
/// them; `serde_json` is built with insertion-ordered maps, so that is the
/// order in which they were parsed or inserted.
pub ghost enum Json {
    Null,
    Bool(bool),
    /// A number that is held as an integer: one written without fraction or
    /// exponent that fits 64 bits, signed or unsigned.
    Integer(int),
    /// Any other number, identified by the bit pattern of the binary64 value
    /// that holds it.
    Real(u64),
    String(Seq<char>),
    Array(Seq<Json>),
    Object(Seq<(Seq<char>, Json)>),
}

/// The tree that a `serde_json::Value` stands for.
pub uninterp spec fn json_of(v: serde_json::Value) -> Json;

/// What `serde_json::from_str` makes of a text: the tree of the parsed
/// value, or the message of the parse error.
pub uninterp spec fn json_parse(text: Seq<char>) -> Result<Json, Seq<char>>;

/// The value of the first member named `key` among `members`.
pub open spec fn lookup(members: Seq<(Seq<char>, Json)>, key: Seq<char>) -> Option<Json>
    decreases members.len(),
{
    if members.len() == 0 {
        None
    } else if members[0].0 == key {
        Some(members[0].1)
    } else {
        lookup(members.drop_first(), key)
    }
}

/// The names of `members`, in order.
pub open spec fn keys(members: Seq<(Seq<char>, Json)>) -> Seq<Seq<char>> {
    members.map_values(|m: (Seq<char>, Json)| m.0)
}

/// The trees of a sequence of values.
pub open spec fn trees(values: Seq<serde_json::Value>) -> Seq<Json> {
    values.map_values(|v: serde_json::Value| json_of(v))
}

/// The members that a sequence of named values stands for.
pub open spec fn member_trees(members: Seq<(String, serde_json::Value)>) -> Seq<(Seq<char>, Json)> {
    members.map_values(|m: (String, serde_json::Value)| (m.0@, json_of(m.1)))
}

/// Looking a name up in two runs of members, one after the other, finds the
/// member of the first run if there is one, and else that of the second.
pub proof fn lemma_lookup_concat(
    a: Seq<(Seq<char>, Json)>,
    b: Seq<(Seq<char>, Json)>,
    key: Seq<char>,
)
    ensures
        lookup(a + b, key) == match lookup(a, key) {
            Some(value) => Some(value),
            None => lookup(b, key),
        },
    decreases a.len(),
{
    if a.len() == 0 {
        assert(a + b =~= b);
    } else {
        assert((a + b).drop_first() =~= a.drop_first() + b);
        lemma_lookup_concat(a.drop_first(), b, key);
    }
}

/// An optional text member: one member when the text is there, none when it
/// is not.
pub open spec fn optional_text(key: Seq<char>, value: Option<Seq<char>>) -> Seq<(Seq<char>, Json)> {
    match value {
        Some(s) => seq![(key, Json::String(s))],
        None => seq![],
    }
}

/// An optional integer member: one member when the number is there, none
/// when it is not.
pub open spec fn optional_integer(key: Seq<char>, value: Option<int>) -> Seq<(Seq<char>, Json)> {
    match value {
        Some(n) => seq![(key, Json::Integer(n))],
        None => seq![],
    }
}

/// Looking a name up in an optional text member finds the text under the
/// member's own name and nothing under any other.
pub proof fn lemma_lookup_optional_text(name: Seq<char>, value: Option<Seq<char>>, key: Seq<char>)
    ensures
        lookup(optional_text(name, value), key) == match value {
            Some(s) if key == name => Some(Json::String(s)),
            _ => None,
        },
{
    reveal_with_fuel(lookup, 2);
}

/// Looking a name up in an optional integer member finds the number under
/// the member's own name and nothing under any other.
pub proof fn lemma_lookup_optional_integer(name: Seq<char>, value: Option<int>, key: Seq<char>)
    ensures
        lookup(optional_integer(name, value), key) == match value {
            Some(n) if key == name => Some(Json::Integer(n)),
            _ => None,
        },
{
    reveal_with_fuel(lookup, 2);
}

impl Json {
    /// The member `key` of an object; `None` for a missing member and for
    /// anything that is not an object.
    pub open spec fn get(self, key: Seq<char>) -> Option<Json> {
        match self {
            Json::Object(members) => lookup(members, key),
            _ => None,
        }
    }

    /// The member `key`, if it is a string.
    pub open spec fn text(self, key: Seq<char>) -> Option<Seq<char>> {
        match self.get(key) {
            Some(Json::String(s)) => Some(s),
            _ => None,
        }
    }

    /// The member `key`, if it is an integer between 0 and `max`.
    pub open spec fn unsigned(self, key: Seq<char>, max: int) -> Option<int> {
        match self.get(key) {
            Some(Json::Integer(n)) if 0 <= n <= max => Some(n),
            _ => None,
        }
    }

    /// The elements of the member `key`, if it is an array.
    pub open spec fn list(self, key: Seq<char>) -> Option<Seq<Json>> {
        match self.get(key) {
            Some(Json::Array(items)) => Some(items),
            _ => None,
        }
    }
}

/// `serde_json::Value::as_str` returns the text of a string value and `None`
/// for every other kind of value.
pub assume_specification<'a>[ serde_json::Value::as_str ](v: &'a serde_json::Value) -> (r: Option<
    &'a str,
>)
    ensures
        match r {
            Some(s) => json_of(*v) == Json::String(s@),
            None => !(json_of(*v) is String),
        },
;

/// `serde_json::Value::as_u64` returns a number that was written as an
/// integer and lies between 0 and `u64::MAX`, and `None` for every other
/// value.
pub assume_specification[ serde_json::Value::as_u64 ](v: &serde_json::Value) -> (r: Option<u64>)
    ensures
        match r {
            Some(n) => json_of(*v) == Json::Integer(n as int),
            None => !(json_of(*v) matches Json::Integer(n) && 0 <= n <= u64::MAX),
        },
;

/// `serde_json::Value::as_array` returns the elements of an array and `None`
/// for every other kind of value.
pub assume_specification<'a>[ serde_json::Value::as_array ](v: &'a serde_json::Value) -> (r: Option<
    &'a Vec<serde_json::Value>,
>)
    ensures
        match r {
            Some(items) => json_of(*v) == Json::Array(trees(items@)),
            None => !(json_of(*v) is Array),
        },
;

/// `serde_json::Value::get` with a string index returns the member of that
/// name when the value is an object that has one, and `None` otherwise.
#[verifier::external_body]
pub(crate) fn member<'a>(v: &'a serde_json::Value, key: &str) -> (r: Option<&'a serde_json::Value>)
    ensures
        match r {
            Some(m) => json_of(*v).get(key@) == Some(json_of(*m)),
            None => json_of(*v).get(key@) is None,
        },
{
    v.get(key)
}

/// `serde_json::Value::from` turns a string slice into the string value with
/// the same text.
#[verifier::external_body]
pub(crate) fn string_value(s: &str) -> (v: serde_json::Value)
    ensures
        json_of(v) == Json::String(s@),
{
    serde_json::Value::from(s)
}

/// `serde_json::Value::from` turns an unsigned integer into the number with
/// that value.
#[verifier::external_body]
pub(crate) fn unsigned_value(n: u64) -> (v: serde_json::Value)
    ensures
        json_of(v) == Json::Integer(n as int),
{
    serde_json::Value::from(n)
}

/// The variant `serde_json::Value::Array` holds the elements of an array,
/// in order.
#[verifier::external_body]
pub(crate) fn array_value(items: Vec<serde_json::Value>) -> (v: serde_json::Value)
    ensures
        json_of(v) == Json::Array(trees(items@)),
{
    serde_json::Value::Array(items)
}

/// Collecting named values into a `serde_json::Map` inserts them one after
/// the other. With no name given twice, the object holds exactly those
/// members, in the order given.
#[verifier::external_body]
pub(crate) fn object_value(members: Vec<(String, serde_json::Value)>) -> (v: serde_json::Value)
    requires
        keys(member_trees(members@)).no_duplicates(),
    ensures
        json_of(v) == Json::Object(member_trees(members@)),
{
    serde_json::Value::Object(members.into_iter().collect())
}

/// `serde_json::from_str` parses a JSON text into a value, or reports why the
/// text is not one JSON value. The outcome depends on the text alone.
#[verifier::external_body]
pub(crate) fn parse_json(text: &str) -> (r: Result<serde_json::Value, String>)
    ensures
        match r {
            Ok(v) => json_parse(text@) == Ok::<Json, Seq<char>>(json_of(v)),
            Err(message) => json_parse(text@) == Err::<Json, Seq<char>>(message@),
        },
{
    match serde_json::from_str::<serde_json::Value>(text) {
        Ok(v) => Ok(v),
        Err(e) => Err(e.to_string()),
    }
}

/// The text of the member `key` of `v`, if `v` is an object whose member of
/// that name is a string.
pub fn text_member<'a>(v: &'a serde_json::Value, key: &str) -> (r: Option<&'a str>)
    ensures
        match r {
            Some(s) => json_of(*v).text(key@) == Some(s@),
            None => json_of(*v).text(key@) is None,
        },
{
    match member(v, key) {
        Some(m) => m.as_str(),
        None => None,
    }
}

/// The member `key` of `v`, if `v` is an object whose member of that name is
/// an integer between 0 and `max`.
pub fn unsigned_member(v: &serde_json::Value, key: &str, max: u64) -> (r: Option<u64>)
    ensures
        match r {
            Some(n) => json_of(*v).unsigned(key@, max as int) == Some(n as int),
            None => json_of(*v).unsigned(key@, max as int) is None,
        },
{
    match member(v, key) {
        Some(m) => match m.as_u64() {
            Some(n) => if n <= max {
                Some(n)
            } else {
                None
            },
            None => None,
        },
        None => None,
    }
}

/// The elements of the member `key` of `v`, if `v` is an object whose member
/// of that name is an array.
pub fn list_member<'a>(v: &'a serde_json::Value, key: &str) -> (r: Option<&'a Vec<serde_json::Value>>)
    ensures
        match r {
            Some(items) => json_of(*v).list(key@) == Some(trees(items@)),
            None => json_of(*v).list(key@) is None,
        },
{
    match member(v, key) {
        Some(m) => m.as_array(),
        None => None,
    }
}

} // verus!
