//! The library's model of a JSON document.
//!
//! A [`JsonValue`] is the tree a response body parses to.  The decoders in
//! [`crate::decode`] and [`crate::responses`] work on this tree alone, so
//! everything from the raw tree to the typed result is verified; only the
//! step from text to tree is performed by an outside parser.

use vstd::prelude::*;

verus! {

/// A JSON value.
///
/// Numbers are modelled as `i64`: every numeric field of the Discuit API is
/// a small integer.  A number outside that range parses to [`JsonValue::OtherNum`],
/// which no decoder accepts.
#[derive(Debug, PartialEq, Eq)]
pub enum JsonValue {
    /// `null`.
    Null,
    /// `true` or `false`.
    Bool(bool),
    /// A number with an integral value that fits in an `i64`.
    Int(i64),
    /// A number that is not an integer or does not fit in an `i64`.
    OtherNum,
    /// A string.
    Str(String),
    /// An array.
    Arr(Vec<JsonValue>),
    /// An object, as the sequence of its members in the order the producer
    /// handed them over; the outside parser yields them sorted by name,
    /// with duplicate names collapsed.
    Obj(Vec<(String, JsonValue)>),
}

/// The value of the first member named `key`, if the object has one.
pub open spec fn slookup(fields: Seq<(String, JsonValue)>, key: Seq<char>) -> Option<JsonValue>
    decreases fields.len(),
{
    if fields.len() == 0 {
        None
    } else if fields[0].0@ == key {
        Some(fields[0].1)
    } else {
        slookup(fields.drop_first(), key)
    }
}

/// A found member is one of the elements of the object.
pub proof fn lemma_slookup_element(fields: Seq<(String, JsonValue)>, key: Seq<char>)
    requires
        slookup(fields, key) is Some,
    ensures
        exists|i: int|
            0 <= i < fields.len() && fields[i].1 == slookup(fields, key)->0 && fields[i].0@
                == key,
    decreases fields.len(),
{
    if fields.len() == 0 {
    } else if fields[0].0@ == key {
        assert(fields[0].1 == slookup(fields, key)->0 && fields[0].0@ == key);
    } else {
        lemma_slookup_element(fields.drop_first(), key);
        let j = choose|j: int|
            0 <= j < fields.drop_first().len() && fields.drop_first()[j].1 == slookup(
                fields.drop_first(),
                key,
            )->0 && fields.drop_first()[j].0@ == key;
        assert(fields[j + 1] == fields.drop_first()[j]);
    }
}

/// An object decreases to the value of any of its members.
pub proof fn lemma_field_decreases(v: JsonValue, fields: Vec<(String, JsonValue)>, key: Seq<char>)
    requires
        v == JsonValue::Obj(fields),
        slookup(fields@, key) is Some,
    ensures
        decreases_to!(v => slookup(fields@, key)->0),
{
    lemma_slookup_element(fields@, key);
    let i = choose|i: int|
        0 <= i < fields@.len() && fields@[i].1 == slookup(fields@, key)->0 && fields@[i].0@ == key;
    assert(decreases_to!(v => v->Obj_0));
    assert(decreases_to!(fields => fields@));
    assert(decreases_to!(fields@ => fields@[i]));
    assert(decreases_to!(fields@[i] => fields@[i].1));
}

/// An array value decreases to the sequence of its elements.
pub proof fn lemma_arr_decreases(v: JsonValue, arr: Vec<JsonValue>)
    requires
        v == JsonValue::Arr(arr),
    ensures
        decreases_to!(v => arr@),
        decreases_to!(v => arr@.skip(0)),
{
    assert(decreases_to!(v => v->Arr_0));
    assert(decreases_to!(arr => arr@));
    assert(arr@.skip(0) =~= arr@);
}

/// A member of an object that is an array: the object decreases to the
/// sequence of the array's elements.
pub proof fn lemma_field_arr_decreases(
    v: JsonValue,
    fields: Vec<(String, JsonValue)>,
    key: Seq<char>,
    a: Vec<JsonValue>,
)
    requires
        v == JsonValue::Obj(fields),
        slookup(fields@, key) == Some(JsonValue::Arr(a)),
    ensures
        decreases_to!(v => a@),
{
    lemma_field_decreases(v, fields, key);
    lemma_arr_decreases(JsonValue::Arr(a), a);
}

/// A required string member: present and a string.
pub open spec fn req_str(fields: Seq<(String, JsonValue)>, key: Seq<char>) -> Option<String> {
    match slookup(fields, key) {
        Some(JsonValue::Str(s)) => Some(s),
        _ => None,
    }
}

/// An optional string member: a missing member and `null` both read as
/// "not set"; any other non-string value is a shape mismatch.
pub open spec fn opt_str(fields: Seq<(String, JsonValue)>, key: Seq<char>) -> Option<
    Option<String>,
> {
    match slookup(fields, key) {
        None => Some(None),
        Some(JsonValue::Null) => Some(None),
        Some(JsonValue::Str(s)) => Some(Some(s)),
        Some(_) => None,
    }
}

/// A required integer member that fits in an `i32`.
pub open spec fn req_i32(fields: Seq<(String, JsonValue)>, key: Seq<char>) -> Option<i32> {
    match slookup(fields, key) {
        Some(JsonValue::Int(i)) => if i32::MIN <= i <= i32::MAX {
            Some(i as i32)
        } else {
            None
        },
        _ => None,
    }
}

/// A required boolean member.
pub open spec fn req_bool(fields: Seq<(String, JsonValue)>, key: Seq<char>) -> Option<bool> {
    match slookup(fields, key) {
        Some(JsonValue::Bool(b)) => Some(b),
        _ => None,
    }
}

/// An optional boolean member; missing and `null` read as "not set".
pub open spec fn opt_bool(fields: Seq<(String, JsonValue)>, key: Seq<char>) -> Option<
    Option<bool>,
> {
    match slookup(fields, key) {
        None => Some(None),
        Some(JsonValue::Null) => Some(None),
        Some(JsonValue::Bool(b)) => Some(Some(b)),
        Some(_) => None,
    }
}

/// Whether the outside timestamp parser accepts `s` as an RFC 3339 timestamp.
pub uninterp spec fn rfc3339_accepts(s: Seq<char>) -> bool;

/// Relies on `chrono::DateTime::parse_from_rfc3339`: whether a text is
/// accepted as an RFC 3339 timestamp depends on the text alone.
#[verifier::external_body]
pub fn is_rfc3339(s: &str) -> (r: bool)
    ensures
        r == rfc3339_accepts(s@),
{
    chrono::DateTime::parse_from_rfc3339(s).is_ok()
}

/// A required timestamp member: a string the timestamp parser accepts.
pub open spec fn req_time(fields: Seq<(String, JsonValue)>, key: Seq<char>) -> Option<String> {
    match slookup(fields, key) {
        Some(JsonValue::Str(s)) => if rfc3339_accepts(s@) {
            Some(s)
        } else {
            None
        },
        _ => None,
    }
}

/// An optional timestamp member; missing and `null` read as "not set".
pub open spec fn opt_time(fields: Seq<(String, JsonValue)>, key: Seq<char>) -> Option<
    Option<String>,
> {
    match slookup(fields, key) {
        None => Some(None),
        Some(JsonValue::Null) => Some(None),
        Some(JsonValue::Str(s)) => if rfc3339_accepts(s@) {
            Some(Some(s))
        } else {
            None
        },
        Some(_) => None,
    }
}

/// Finds the first member named `key` and returns a reference to its value.
pub fn lookup_field<'a>(fields: &'a Vec<(String, JsonValue)>, key: &str) -> (r: Option<
    &'a JsonValue,
>)
    ensures
        match r {
            Some(w) => slookup(fields@, key@) == Some(*w),
            None => slookup(fields@, key@) is None,
        },
{
    let k: String = key.to_owned();
    proof {
        assert(fields@.skip(0) =~= fields@);
    }
    let mut i: usize = 0;
    while i < fields.len()
        invariant
            i <= fields@.len(),
            k@ == key@,
            slookup(fields@, key@) == slookup(fields@.skip(i as int), key@),
        decreases fields@.len() - i,
    {
        proof {
            assert(fields@.skip(i as int)[0] == fields@[i as int]);
        }
        if fields[i].0 == k {
            return Some(&fields[i].1);
        }
        proof {
            assert(fields@.skip(i as int).drop_first() =~= fields@.skip(i as int + 1));
        }
        i += 1;
    }
    proof {
        assert(fields@.skip(i as int).len() == 0);
    }
    None
}

/// Reads a required string member, handing back an owned copy.
pub fn get_str(fields: &Vec<(String, JsonValue)>, key: &str) -> (r: Option<String>)
    ensures
        r == req_str(fields@, key@),
{
    match lookup_field(fields, key) {
        Some(JsonValue::Str(s)) => Some(s.clone()),
        _ => None,
    }
}

/// Reads an optional string member.
pub fn get_opt_str(fields: &Vec<(String, JsonValue)>, key: &str) -> (r: Option<Option<String>>)
    ensures
        r == opt_str(fields@, key@),
{
    match lookup_field(fields, key) {
        None => Some(None),
        Some(JsonValue::Null) => Some(None),
        Some(JsonValue::Str(s)) => Some(Some(s.clone())),
        Some(_) => None,
    }
}

/// Reads a required `i32` member.
pub fn get_i32(fields: &Vec<(String, JsonValue)>, key: &str) -> (r: Option<i32>)
    ensures
        r == req_i32(fields@, key@),
{
    match lookup_field(fields, key) {
        Some(JsonValue::Int(i)) => {
            let i = *i;
            if i32::MIN as i64 <= i && i <= i32::MAX as i64 {
                Some(i as i32)
            } else {
                None
            }
        },
        _ => None,
    }
}

/// Reads a required boolean member.
pub fn get_bool(fields: &Vec<(String, JsonValue)>, key: &str) -> (r: Option<bool>)
    ensures
        r == req_bool(fields@, key@),
{
    match lookup_field(fields, key) {
        Some(JsonValue::Bool(b)) => Some(*b),
        _ => None,
    }
}

/// Reads an optional boolean member.
pub fn get_opt_bool(fields: &Vec<(String, JsonValue)>, key: &str) -> (r: Option<Option<bool>>)
    ensures
        r == opt_bool(fields@, key@),
{
    match lookup_field(fields, key) {
        None => Some(None),
        Some(JsonValue::Null) => Some(None),
        Some(JsonValue::Bool(b)) => Some(Some(*b)),
        Some(_) => None,
    }
}

/// Reads a required timestamp member.
pub fn get_time(fields: &Vec<(String, JsonValue)>, key: &str) -> (r: Option<String>)
    ensures
        r == req_time(fields@, key@),
{
    match lookup_field(fields, key) {
        Some(JsonValue::Str(s)) => if is_rfc3339(s.as_str()) {
            Some(s.clone())
        } else {
            None
        },
        _ => None,
    }
}

/// Reads an optional timestamp member.
pub fn get_opt_time(fields: &Vec<(String, JsonValue)>, key: &str) -> (r: Option<Option<String>>)
    ensures
        r == opt_time(fields@, key@),
{
    match lookup_field(fields, key) {
        None => Some(None),
        Some(JsonValue::Null) => Some(None),
        Some(JsonValue::Str(s)) => if is_rfc3339(s.as_str()) {
            Some(Some(s.clone()))
        } else {
            None
        },
        Some(_) => None,
    }
}

/// The tree the outside JSON parser produces for a text, if it accepts it.
pub uninterp spec fn parsed_json(s: Seq<char>) -> Option<JsonValue>;

#[verifier::external_type_specification]
#[verifier::external_body]
pub struct ExSerdeValue(serde_json::Value);

/// Rebuilds serde_json's value tree as the library's own, variant by
/// variant.  Relies on the variants of `serde_json::Value` and on
/// `serde_json::Number::as_i64`.
#[verifier::external_body]
fn json_of_serde(v: serde_json::Value) -> JsonValue {
    match v {
        serde_json::Value::Null => JsonValue::Null,
        serde_json::Value::Bool(b) => JsonValue::Bool(b),
        serde_json::Value::Number(n) => match n.as_i64() {
            Some(i) => JsonValue::Int(i),
            None => JsonValue::OtherNum,
        },
        serde_json::Value::String(s) => JsonValue::Str(s),
        serde_json::Value::Array(a) => JsonValue::Arr(
            a.into_iter().map(json_of_serde).collect(),
        ),
        serde_json::Value::Object(o) => JsonValue::Obj(
            o.into_iter().map(|kv| (kv.0, json_of_serde(kv.1))).collect(),
        ),
    }
}

/// Relies on `serde_json::from_str::<serde_json::Value>`: the tree a text
/// parses to, or nothing, depends on the text alone.
#[verifier::external_body]
pub fn parse_json(s: &str) -> (r: Option<JsonValue>)
    ensures
        r == parsed_json(s@),
{
    match serde_json::from_str::<serde_json::Value>(s) {
        Ok(v) => Some(json_of_serde(v)),
        Err(_) => None,
    }
}

} // verus!
