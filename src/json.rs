//! The structured values that the transport hands over and takes: serde_json's
//! `Value` and `Map`, with the few of their operations that the library uses,
//! each stated over a name for what it returns.
use vstd::prelude::*;

verus! {

#[verifier::external_type_specification]
#[verifier::external_body]
pub struct ExValue(serde_json::Value);

#[verifier::external_type_specification]
#[verifier::external_body]
#[verifier::reject_recursive_types(K)]
#[verifier::reject_recursive_types(V)]
pub struct ExJsonMap<K, V>(serde_json::Map<K, V>);

#[verifier::external_type_specification]
#[verifier::external_body]
pub struct ExJsonError(serde_json::Error);

/// A string-keyed map of structured values, as the broker takes and reports it.
pub type ArgumentMap = serde_json::Map<String, serde_json::Value>;

/// The entries of an argument map, by key.
pub uninterp spec fn entries(m: ArgumentMap) -> Map<Seq<char>, serde_json::Value>;

/// The value that `v.get(key)` returns: the entry of an object, or nothing.
pub uninterp spec fn json_get(v: serde_json::Value, key: Seq<char>) -> Option<serde_json::Value>;

/// The text of a string value.
pub uninterp spec fn json_as_str(v: serde_json::Value) -> Option<Seq<char>>;

/// A non-negative integer value.
pub uninterp spec fn json_as_u64(v: serde_json::Value) -> Option<u64>;

/// An integer value that fits an `i64`.
pub uninterp spec fn json_as_i64(v: serde_json::Value) -> Option<i64>;

/// A boolean value.
pub uninterp spec fn json_as_bool(v: serde_json::Value) -> Option<bool>;

/// The elements of an array value.
pub uninterp spec fn json_as_array(v: serde_json::Value) -> Option<Seq<serde_json::Value>>;

/// The entries of an object value.
pub uninterp spec fn json_as_object(v: serde_json::Value) -> Option<Map<Seq<char>, serde_json::Value>>;

/// Whether a value is `null`.
pub uninterp spec fn json_is_null(v: serde_json::Value) -> bool;

/// The compact JSON text of a value.
pub uninterp spec fn json_text(v: serde_json::Value) -> Seq<char>;

/// The entries of an empty map.
pub open spec fn no_entries() -> Map<Seq<char>, serde_json::Value> {
    Map::empty()
}

/// Relies on serde_json's `Clone` for `Map<String, Value>`: the copy has the
/// same entries.
pub assume_specification[ <serde_json::Map<String, serde_json::Value> as Clone>::clone ](
    m: &serde_json::Map<String, serde_json::Value>,
) -> (r: serde_json::Map<String, serde_json::Value>)
    ensures
        entries(r) == entries(*m),
;

/// Relies on serde_json::Map::new: a new map has no entries.
#[verifier::external_body]
pub(crate) fn new_map() -> (r: ArgumentMap)
    ensures
        entries(r) == no_entries(),
{
    serde_json::Map::new()
}

/// Relies on serde_json::Map::insert: the key's entry is set to the value,
/// whether or not the key was there before.
#[verifier::external_body]
pub(crate) fn map_insert(m: &mut ArgumentMap, key: String, value: serde_json::Value)
    ensures
        entries(*final(m)) == entries(*old(m)).insert(key@, value),
{
    m.insert(key, value);
}

/// Relies on serde_json::Map::append: every entry of `other` moves into `m`,
/// replacing the entry of `m` with the same key, and `other` is left empty.
#[verifier::external_body]
pub(crate) fn map_append(m: &mut ArgumentMap, other: &mut ArgumentMap)
    ensures
        entries(*final(m)) == entries(*old(m)).union_prefer_right(entries(*old(other))),
        entries(*final(other)) == no_entries(),
{
    m.append(other)
}

/// Relies on serde_json::Value::String, read back by `Value::as_str`.
#[verifier::external_body]
pub(crate) fn string_value(s: String) -> (r: serde_json::Value)
    ensures
        json_as_str(r) == Some(s@),
{
    serde_json::Value::String(s)
}

/// Relies on serde_json::Value::get with a string key.
#[verifier::external_body]
pub(crate) fn get_field(v: &serde_json::Value, key: &str) -> (r: Option<serde_json::Value>)
    ensures
        r == json_get(*v, key@),
{
    v.get(key).cloned()
}

/// Relies on serde_json::Value::as_str.
#[verifier::external_body]
pub(crate) fn as_string(v: &serde_json::Value) -> (r: Option<String>)
    ensures
        r is Some == json_as_str(*v) is Some,
        r is Some ==> r->0@ == json_as_str(*v)->0,
{
    v.as_str().map(str::to_owned)
}

/// Relies on serde_json::Value::as_u64.
#[verifier::external_body]
pub(crate) fn as_u64(v: &serde_json::Value) -> (r: Option<u64>)
    ensures
        r == json_as_u64(*v),
{
    v.as_u64()
}

/// Relies on serde_json::Value::as_i64.
#[verifier::external_body]
pub(crate) fn as_i64(v: &serde_json::Value) -> (r: Option<i64>)
    ensures
        r == json_as_i64(*v),
{
    v.as_i64()
}

/// Relies on serde_json::Value::as_bool.
#[verifier::external_body]
pub(crate) fn as_bool(v: &serde_json::Value) -> (r: Option<bool>)
    ensures
        r == json_as_bool(*v),
{
    v.as_bool()
}

/// Relies on serde_json::Value::as_array, for a copy of the elements.
#[verifier::external_body]
pub(crate) fn as_array(v: &serde_json::Value) -> (r: Option<Vec<serde_json::Value>>)
    ensures
        r is Some == json_as_array(*v) is Some,
        r is Some ==> r->0@ == json_as_array(*v)->0,
{
    v.as_array().cloned()
}

/// Relies on serde_json::Value::as_object, for a copy of the entries.
#[verifier::external_body]
pub(crate) fn as_object(v: &serde_json::Value) -> (r: Option<ArgumentMap>)
    ensures
        r is Some == json_as_object(*v) is Some,
        r is Some ==> entries(r->0) == json_as_object(*v)->0,
{
    v.as_object().cloned()
}

/// Relies on serde_json::Value::is_null.
#[verifier::external_body]
pub(crate) fn is_null(v: &serde_json::Value) -> (r: bool)
    ensures
        r == json_is_null(*v),
{
    v.is_null()
}

/// Relies on serde_json's `Display` for `Value`: the compact JSON text.
#[verifier::external_body]
pub(crate) fn render(v: &serde_json::Value) -> (r: String)
    ensures
        r@ == json_text(*v),
{
    v.to_string()
}

pub open spec fn is_ascii_digit(c: char) -> bool {
    '0' <= c && c <= '9'
}

/// The number that a sequence of decimal digits spells.
pub open spec fn digits_value(s: Seq<char>) -> nat
    decreases s.len(),
{
    if s.len() == 0 {
        0
    } else {
        digits_value(s.drop_last()) * 10 + (s.last() as nat - '0' as nat) as nat
    }
}

/// What `str::parse::<u32>` accepts: an optional `+`, then one or more decimal
/// digits spelling a number that fits a `u32`.
pub open spec fn decimal_u32(s: Seq<char>) -> Option<u32> {
    let d = if s.len() > 0 && s[0] == '+' { s.drop_first() } else { s };
    if d.len() > 0 && (forall|i: int| 0 <= i < d.len() ==> is_ascii_digit(#[trigger] d[i]))
        && digits_value(d) <= u32::MAX {
        Some(digits_value(d) as u32)
    } else {
        None
    }
}

/// Relies on serde_aux's deserialize_number_from_string on a `Value`: a string
/// is parsed with `str::parse::<u32>`, a number is taken when it fits a `u32`,
/// anything else is refused.
#[verifier::external_body]
pub(crate) fn number_from_string_u32(v: &serde_json::Value) -> (r: Result<u32, serde_json::Error>)
    ensures
        json_as_str(*v) is Some ==> match decimal_u32(json_as_str(*v)->0) {
            Some(n) => r == Ok::<u32, serde_json::Error>(n),
            None => r is Err,
        },
        json_as_str(*v) is None ==> match json_as_u64(*v) {
            Some(n) => if n <= u32::MAX {
                r == Ok::<u32, serde_json::Error>(n as u32)
            } else {
                r is Err
            },
            None => r is Err,
        },
{
    serde_aux::field_attributes::deserialize_number_from_string::<u32, _>(v)
}

} // verus!
