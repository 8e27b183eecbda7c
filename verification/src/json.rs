//! JSON values, as far as the library builds and reads them.
//!
//! The values, their text and the parser are `serde_json`'s. This module
//! gives them a mathematical model and states, without proof, what each of
//! the calls it makes does in terms of that model.
use vstd::prelude::*;
use vstd::string::*;

verus! {

/// What a JSON value holds. A number that `serde_json` holds as a float is
/// a `Fraction`, whatever its value; a number that it holds as a whole
/// number is that `Integer`.
pub enum Json {
    Null,
    Boolean(bool),
    Integer(int),
    Fraction,
    Text(Seq<char>),
    Array(Seq<Json>),
    Object(Map<Seq<char>, Json>),
}

impl Json {
    /// Neither an array nor an object.
    pub open spec fn is_scalar(self) -> bool {
        !(self is Array) && !(self is Object)
    }

    /// An object whose members are all scalars.
    pub open spec fn is_record(self) -> bool {
        self matches Json::Object(m) && forall|k: Seq<char>|
            m.contains_key(k) ==> (#[trigger] m[k]).is_scalar()
    }

    /// A scalar, or an object whose members are scalars or records: a value
    /// nested at most two objects deep.
    pub open spec fn is_shallow(self) -> bool {
        self.is_scalar() || (self matches Json::Object(m) && forall|k: Seq<char>|
            m.contains_key(k) ==> ((#[trigger] m[k]).is_scalar() || m[k].is_record()))
    }
}

/// `serde_json::Value`, taken as it is: nothing is seen inside it but
/// through [`json_value`].
#[verifier::external_type_specification]
#[verifier::external_body]
pub struct ExValue(serde_json::Value);

/// `serde_json::Map`, taken as it is: nothing is seen inside it but through
/// [`json_entries`].
#[verifier::external_type_specification]
#[verifier::external_body]
#[verifier::reject_recursive_types(K)]
#[verifier::reject_recursive_types(V)]
pub struct ExMap<K, V>(serde_json::Map<K, V>);

/// What a `serde_json::Value` holds.
pub uninterp spec fn json_value(v: serde_json::Value) -> Json;

/// The members of a `serde_json::Map`, by key.
pub uninterp spec fn json_entries(m: serde_json::Map<String, serde_json::Value>) -> Map<
    Seq<char>,
    Json,
>;

/// What `serde_json::from_str` reads from a text: the value that the text
/// writes, or nothing where the text is no JSON.
pub uninterp spec fn json_of_text(text: Seq<char>) -> Option<Json>;

/// `serde_json::Map::new`: a map without members.
#[verifier::external_body]
pub(crate) fn object_new() -> (m: serde_json::Map<String, serde_json::Value>)
    ensures
        json_entries(m) == (Map::<Seq<char>, Json>::empty()),
{
    serde_json::Map::new()
}

/// `serde_json::Map::insert`: afterwards `key` leads to `value`, in place of
/// what it led to before, and every other key leads where it did.
#[verifier::external_body]
pub(crate) fn object_insert(
    m: &mut serde_json::Map<String, serde_json::Value>,
    key: &str,
    value: serde_json::Value,
)
    ensures
        json_entries(*final(m)) == json_entries(*old(m)).insert(key@, json_value(value)),
{
    m.insert(key.to_owned(), value);
}

/// `serde_json::Map::get`: the member under `key`, if there is one.
#[verifier::external_body]
pub(crate) fn object_get<'a>(
    m: &'a serde_json::Map<String, serde_json::Value>,
    key: &str,
) -> (r: Option<&'a serde_json::Value>)
    ensures
        match r {
            Some(v) => json_entries(*m).contains_key(key@) && json_entries(*m)[key@] == json_value(
                *v,
            ),
            None => !json_entries(*m).contains_key(key@),
        },
{
    m.get(key)
}

/// `serde_json::Value::String`: the JSON string with the text `s`.
#[verifier::external_body]
pub(crate) fn value_of_str(s: &str) -> (v: serde_json::Value)
    ensures
        json_value(v) == Json::Text(s@),
{
    serde_json::Value::String(s.to_owned())
}

/// `serde_json::Value::from` on a `u64`: the JSON number `n`.
#[verifier::external_body]
pub(crate) fn value_of_u64(n: u64) -> (v: serde_json::Value)
    ensures
        json_value(v) == Json::Integer(n as int),
{
    serde_json::Value::from(n)
}

/// `serde_json::Value::Object`: the JSON object with the members of `m`.
#[verifier::external_body]
pub(crate) fn value_of_object(m: serde_json::Map<String, serde_json::Value>) -> (v:
    serde_json::Value)
    ensures
        json_value(v) == Json::Object(json_entries(m)),
{
    serde_json::Value::Object(m)
}

/// `serde_json::Value::as_object`: the members, where the value is an
/// object, and nothing where it is not.
#[verifier::external_body]
pub(crate) fn value_as_object<'a>(v: &'a serde_json::Value) -> (r: Option<
    &'a serde_json::Map<String, serde_json::Value>,
>)
    ensures
        match r {
            Some(m) => json_value(*v) == Json::Object(json_entries(*m)),
            None => !(json_value(*v) is Object),
        },
{
    v.as_object()
}

/// `serde_json::Value::as_str`: the text, where the value is a string, and
/// nothing where it is not.
#[verifier::external_body]
pub(crate) fn value_as_str<'a>(v: &'a serde_json::Value) -> (r: Option<&'a str>)
    ensures
        match r {
            Some(s) => json_value(*v) == Json::Text(s@),
            None => !(json_value(*v) is Text),
        },
{
    v.as_str()
}

/// `serde_json::Value::as_u64`: the number, where the value is an integer
/// from 0 to `u64::MAX`, and nothing where it is anything else.
#[verifier::external_body]
pub(crate) fn value_as_u64(v: &serde_json::Value) -> (r: Option<u64>)
    ensures
        match r {
            Some(n) => json_value(*v) == Json::Integer(n as int),
            None => !(json_value(*v) matches Json::Integer(i) && 0 <= i <= u64::MAX),
        },
{
    v.as_u64()
}

/// `serde_json::to_string` on a value that is nested at most two objects
/// deep: a text comes back, and `serde_json::from_str` reads the same value
/// back from that text.
///
/// The call fails only where a `Serialize` impl fails or a map has a key
/// that is no string. A `Value` writes itself without failing, its maps are
/// keyed by `String`, and the text is written into memory.
#[verifier::external_body]
pub(crate) fn value_to_text(v: &serde_json::Value) -> (r: Result<String, String>)
    ensures
        json_value(*v).is_shallow() ==> r is Ok,
        json_value(*v).is_shallow() ==> (r matches Ok(t) ==> json_of_text(t@) == Some(
            json_value(*v),
        )),
{
    match serde_json::to_string(v) {
        Ok(text) => Ok(text),
        Err(e) => Err(e.to_string()),
    }
}

/// `serde_json::from_str` for a value: the value that the text writes, or,
/// where the text is no JSON, the parser's error in its own words.
#[verifier::external_body]
pub(crate) fn value_of_text(text: &str) -> (r: Result<serde_json::Value, String>)
    ensures
        match r {
            Ok(v) => json_of_text(text@) == Some(json_value(v)),
            Err(_) => json_of_text(text@) is None,
        },
{
    match serde_json::from_str::<serde_json::Value>(text) {
        Ok(v) => Ok(v),
        Err(e) => Err(e.to_string()),
    }
}

} // verus!
