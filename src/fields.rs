//! Field-level decoding of broker responses: finding a field, checking its
//! shape, and reporting what is wrong with it.
use vstd::prelude::*;
use crate::commons::{BindingDestinationType, PolicyTarget};
use crate::json::{
    as_array, as_bool, as_i64, as_object, as_string, as_u64, decimal_u32, entries, get_field,
    is_null, json_as_array, json_as_bool, json_as_i64, json_as_object, json_as_str, json_as_u64,
    json_get, json_is_null, json_text, number_from_string_u32, render, ArgumentMap,
};

verus! {

/// What is wrong with one field of a response.
#[derive(Debug, Clone)]
pub enum ParseFailure {
    /// The field holds a string that names no variant of the enumeration.
    UnknownEnumVariant { enumeration: String, value: String },
    /// A required field is absent.
    MissingField,
    /// The field is present, but its value (given as JSON text) has the wrong
    /// shape or cannot be coerced.
    MalformedField { value: String },
}

/// A response that could not be parsed: the resource type, the field, and
/// what is wrong with it.
#[derive(Debug, Clone)]
pub struct ResponseParseError {
    pub resource: String,
    pub field: String,
    pub failure: ParseFailure,
}

impl ResponseParseError {
    pub open spec fn is_missing(&self, resource: Seq<char>, field: Seq<char>) -> bool {
        &&& self.resource@ == resource
        &&& self.field@ == field
        &&& self.failure is MissingField
    }

    pub open spec fn is_malformed(
        &self,
        resource: Seq<char>,
        field: Seq<char>,
        value: serde_json::Value,
    ) -> bool {
        &&& self.resource@ == resource
        &&& self.field@ == field
        &&& self.failure matches ParseFailure::MalformedField { value: text } && text@ == json_text(
            value,
        )
    }

    pub open spec fn is_unknown_variant(
        &self,
        resource: Seq<char>,
        field: Seq<char>,
        enumeration: Seq<char>,
        value: Seq<char>,
    ) -> bool {
        &&& self.resource@ == resource
        &&& self.field@ == field
        &&& self.failure matches ParseFailure::UnknownEnumVariant { enumeration: e, value: s }
            && e@ == enumeration && s@ == value
    }

    /// The error that a failed field of a response is reported with: missing
    /// when absent, else malformed, with the value as found.
    pub open spec fn reports(
        &self,
        v: serde_json::Value,
        resource: Seq<char>,
        field: Seq<char>,
    ) -> bool {
        match json_get(v, field) {
            None => self.is_missing(resource, field),
            Some(x) => self.is_malformed(resource, field, x),
        }
    }

    /// The error that a failed enumeration field is reported with: missing
    /// when absent, an unknown variant when it is a string, else malformed.
    pub open spec fn reports_enum(
        &self,
        v: serde_json::Value,
        resource: Seq<char>,
        field: Seq<char>,
        enumeration: Seq<char>,
    ) -> bool {
        match json_get(v, field) {
            Some(x) => match json_as_str(x) {
                Some(s) => self.is_unknown_variant(resource, field, enumeration, s),
                None => self.is_malformed(resource, field, x),
            },
            None => self.is_missing(resource, field),
        }
    }
}

pub open spec fn views(s: Seq<String>) -> Seq<Seq<char>> {
    s.map_values(|t: String| t@)
}

pub open spec fn opt_view(s: Option<String>) -> Option<Seq<char>> {
    match s {
        Some(t) => Some(t@),
        None => None,
    }
}

pub open spec fn opt_views(s: Option<Vec<String>>) -> Option<Seq<Seq<char>>> {
    match s {
        Some(t) => Some(views(t@)),
        None => None,
    }
}

pub open spec fn opt_entries(m: Option<ArgumentMap>) -> Option<Map<Seq<char>, serde_json::Value>> {
    match m {
        Some(t) => Some(entries(t)),
        None => None,
    }
}

/// A field that counts as absent when it is missing or `null`.
pub open spec fn is_absent(v: serde_json::Value, field: Seq<char>) -> bool {
    match json_get(v, field) {
        None => true,
        Some(x) => json_is_null(x),
    }
}

pub open spec fn u32_value(x: serde_json::Value) -> Option<u32> {
    match json_as_u64(x) {
        Some(n) => if n <= u32::MAX {
            Some(n as u32)
        } else {
            None
        },
        None => None,
    }
}

pub open spec fn u16_value(x: serde_json::Value) -> Option<u16> {
    match json_as_u64(x) {
        Some(n) => if n <= u16::MAX {
            Some(n as u16)
        } else {
            None
        },
        None => None,
    }
}

pub open spec fn i16_value(x: serde_json::Value) -> Option<i16> {
    match json_as_i64(x) {
        Some(n) => if i16::MIN <= n <= i16::MAX {
            Some(n as i16)
        } else {
            None
        },
        None => None,
    }
}

/// An array of strings.
pub open spec fn str_list_value(x: serde_json::Value) -> Option<Seq<Seq<char>>> {
    match json_as_array(x) {
        Some(a) => if forall|i: int| 0 <= i < a.len() ==> (#[trigger] json_as_str(a[i])) is Some {
            Some(a.map_values(|e: serde_json::Value| json_as_str(e)->0))
        } else {
            None
        },
        None => None,
    }
}

/// A number, or a string that spells one in decimal.
pub open spec fn numeric_u32_value(x: serde_json::Value) -> Option<u32> {
    match json_as_str(x) {
        Some(s) => decimal_u32(s),
        None => u32_value(x),
    }
}

pub open spec fn binding_destination_value(x: serde_json::Value) -> Option<BindingDestinationType> {
    match json_as_str(x) {
        Some(s) => BindingDestinationType::from_wire_spec(s),
        None => None,
    }
}

pub open spec fn policy_target_value(x: serde_json::Value) -> Option<PolicyTarget> {
    match json_as_str(x) {
        Some(s) => PolicyTarget::from_wire_spec(s),
        None => None,
    }
}

pub(crate) fn missing_field(resource: &str, field: &str) -> (e: ResponseParseError)
    ensures
        e.is_missing(resource@, field@),
{
    ResponseParseError {
        resource: resource.to_owned(),
        field: field.to_owned(),
        failure: ParseFailure::MissingField,
    }
}

fn malformed(resource: &str, field: &str, x: &serde_json::Value) -> (e: ResponseParseError)
    ensures
        e.is_malformed(resource@, field@, *x),
{
    ResponseParseError {
        resource: resource.to_owned(),
        field: field.to_owned(),
        failure: ParseFailure::MalformedField { value: render(x) },
    }
}

fn lookup(v: &serde_json::Value, resource: &str, field: &str) -> (r: Result<
    serde_json::Value,
    ResponseParseError,
>)
    ensures
        match json_get(*v, field@) {
            Some(x) => r == Ok::<serde_json::Value, ResponseParseError>(x),
            None => r is Err && r->Err_0.is_missing(resource@, field@),
        },
{
    match get_field(v, field) {
        Some(x) => Ok(x),
        None => Err(missing_field(resource, field)),
    }
}

fn u32_of(x: &serde_json::Value) -> (r: Option<u32>)
    ensures
        r == u32_value(*x),
{
    match as_u64(x) {
        Some(n) => if n <= u32::MAX as u64 {
            Some(n as u32)
        } else {
            None
        },
        None => None,
    }
}

fn u16_of(x: &serde_json::Value) -> (r: Option<u16>)
    ensures
        r == u16_value(*x),
{
    match as_u64(x) {
        Some(n) => if n <= u16::MAX as u64 {
            Some(n as u16)
        } else {
            None
        },
        None => None,
    }
}

fn i16_of(x: &serde_json::Value) -> (r: Option<i16>)
    ensures
        r == i16_value(*x),
{
    match as_i64(x) {
        Some(n) => if i16::MIN as i64 <= n && n <= i16::MAX as i64 {
            Some(n as i16)
        } else {
            None
        },
        None => None,
    }
}

fn numeric_u32_of(x: &serde_json::Value) -> (r: Option<u32>)
    ensures
        r == numeric_u32_value(*x),
{
    match number_from_string_u32(x) {
        Ok(n) => Some(n),
        Err(_) => None,
    }
}

fn str_list_of(x: &serde_json::Value) -> (r: Option<Vec<String>>)
    ensures
        r is Some <==> str_list_value(*x) is Some,
        r is Some ==> views(r->0@) == str_list_value(*x)->0,
{
    let items = match as_array(x) {
        Some(items) => items,
        None => {
            return None;
        },
    };
    let ghost a = json_as_array(*x)->0;
    let mut out: Vec<String> = Vec::new();
    let mut i: usize = 0;
    while i < items.len()
        invariant
            i <= items@.len(),
            items@ == a,
            json_as_array(*x) == Some(a),
            out@.len() == i,
            forall|j: int| 0 <= j < i ==> (#[trigger] json_as_str(a[j])) is Some && out@[j]@
                == json_as_str(a[j])->0,
        decreases items@.len() - i,
    {
        match as_string(&items[i]) {
            Some(s) => {
                out.push(s);
            },
            None => {
                return None;
            },
        }
        i = i + 1;
    }
    proof {
        assert(views(out@) =~= a.map_values(|e: serde_json::Value| json_as_str(e)->0));
    }
    Some(out)
}

fn str_of(x: &serde_json::Value) -> (r: Option<String>)
    ensures
        opt_view(r) == json_as_str(*x),
{
    as_string(x)
}

fn map_of(x: &serde_json::Value) -> (r: Option<ArgumentMap>)
    ensures
        opt_entries(r) == json_as_object(*x),
{
    as_object(x)
}

/// The `str` decoding of a required field, when it succeeds.
pub open spec fn str_at(v: serde_json::Value, field: Seq<char>) -> Option<Seq<char>> {
    match json_get(v, field) {
        Some(x) => json_as_str(x),
        None => None,
    }
}

pub(crate) fn required_str(v: &serde_json::Value, resource: &str, field: &str) -> (r: Result<
    String,
    ResponseParseError,
>)
    ensures
        r is Ok <==> str_at(*v, field@) is Some,
        r is Ok ==> r->Ok_0@ == str_at(*v, field@)->0,
        r is Err ==> r->Err_0.reports(*v, resource@, field@),
{
    let x = match lookup(v, resource, field) {
        Ok(x) => x,
        Err(e) => {
            return Err(e);
        },
    };
    match str_of(&x) {
        Some(t) => Ok(t),
        None => Err(malformed(resource, field, &x)),
    }
}

/// The `str` decoding of an optional field: `Some(None)` when absent or
/// `null`, nothing when present with another shape.
pub open spec fn opt_str_at(v: serde_json::Value, field: Seq<char>) -> Option<Option<Seq<char>>> {
    if is_absent(v, field) {
        Some(None)
    } else {
        match str_at(v, field) {
            Some(t) => Some(Some(t)),
            None => None,
        }
    }
}

pub(crate) fn optional_str(v: &serde_json::Value, resource: &str, field: &str) -> (r: Result<
    Option<String>,
    ResponseParseError,
>)
    ensures
        r is Ok <==> opt_str_at(*v, field@) is Some,
        r is Ok ==> opt_view(r->Ok_0) == opt_str_at(*v, field@)->0,
        r is Err ==> r->Err_0.reports(*v, resource@, field@),
{
    match get_field(v, field) {
        None => Ok(None),
        Some(x) => if is_null(&x) {
            Ok(None)
        } else {
            match str_of(&x) {
                Some(t) => Ok(Some(t)),
                None => Err(malformed(resource, field, &x)),
            }
        },
    }
}

/// The `u64` decoding of a required field, when it succeeds.
pub open spec fn u64_at(v: serde_json::Value, field: Seq<char>) -> Option<u64> {
    match json_get(v, field) {
        Some(x) => json_as_u64(x),
        None => None,
    }
}

pub(crate) fn required_u64(v: &serde_json::Value, resource: &str, field: &str) -> (r: Result<
    u64,
    ResponseParseError,
>)
    ensures
        r is Ok <==> u64_at(*v, field@) is Some,
        r is Ok ==> r->Ok_0 == u64_at(*v, field@)->0,
        r is Err ==> r->Err_0.reports(*v, resource@, field@),
{
    let x = match lookup(v, resource, field) {
        Ok(x) => x,
        Err(e) => {
            return Err(e);
        },
    };
    match as_u64(&x) {
        Some(t) => Ok(t),
        None => Err(malformed(resource, field, &x)),
    }
}

/// The `u32` decoding of a required field, when it succeeds.
pub open spec fn u32_at(v: serde_json::Value, field: Seq<char>) -> Option<u32> {
    match json_get(v, field) {
        Some(x) => u32_value(x),
        None => None,
    }
}

pub(crate) fn required_u32(v: &serde_json::Value, resource: &str, field: &str) -> (r: Result<
    u32,
    ResponseParseError,
>)
    ensures
        r is Ok <==> u32_at(*v, field@) is Some,
        r is Ok ==> r->Ok_0 == u32_at(*v, field@)->0,
        r is Err ==> r->Err_0.reports(*v, resource@, field@),
{
    let x = match lookup(v, resource, field) {
        Ok(x) => x,
        Err(e) => {
            return Err(e);
        },
    };
    match u32_of(&x) {
        Some(t) => Ok(t),
        None => Err(malformed(resource, field, &x)),
    }
}

/// The `u16` decoding of a required field, when it succeeds.
pub open spec fn u16_at(v: serde_json::Value, field: Seq<char>) -> Option<u16> {
    match json_get(v, field) {
        Some(x) => u16_value(x),
        None => None,
    }
}

pub(crate) fn required_u16(v: &serde_json::Value, resource: &str, field: &str) -> (r: Result<
    u16,
    ResponseParseError,
>)
    ensures
        r is Ok <==> u16_at(*v, field@) is Some,
        r is Ok ==> r->Ok_0 == u16_at(*v, field@)->0,
        r is Err ==> r->Err_0.reports(*v, resource@, field@),
{
    let x = match lookup(v, resource, field) {
        Ok(x) => x,
        Err(e) => {
            return Err(e);
        },
    };
    match u16_of(&x) {
        Some(t) => Ok(t),
        None => Err(malformed(resource, field, &x)),
    }
}

/// The `i16` decoding of a required field, when it succeeds.
pub open spec fn i16_at(v: serde_json::Value, field: Seq<char>) -> Option<i16> {
    match json_get(v, field) {
        Some(x) => i16_value(x),
        None => None,
    }
}

pub(crate) fn required_i16(v: &serde_json::Value, resource: &str, field: &str) -> (r: Result<
    i16,
    ResponseParseError,
>)
    ensures
        r is Ok <==> i16_at(*v, field@) is Some,
        r is Ok ==> r->Ok_0 == i16_at(*v, field@)->0,
        r is Err ==> r->Err_0.reports(*v, resource@, field@),
{
    let x = match lookup(v, resource, field) {
        Ok(x) => x,
        Err(e) => {
            return Err(e);
        },
    };
    match i16_of(&x) {
        Some(t) => Ok(t),
        None => Err(malformed(resource, field, &x)),
    }
}

/// The `bool` decoding of a required field, when it succeeds.
pub open spec fn bool_at(v: serde_json::Value, field: Seq<char>) -> Option<bool> {
    match json_get(v, field) {
        Some(x) => json_as_bool(x),
        None => None,
    }
}

pub(crate) fn required_bool(v: &serde_json::Value, resource: &str, field: &str) -> (r: Result<
    bool,
    ResponseParseError,
>)
    ensures
        r is Ok <==> bool_at(*v, field@) is Some,
        r is Ok ==> r->Ok_0 == bool_at(*v, field@)->0,
        r is Err ==> r->Err_0.reports(*v, resource@, field@),
{
    let x = match lookup(v, resource, field) {
        Ok(x) => x,
        Err(e) => {
            return Err(e);
        },
    };
    match as_bool(&x) {
        Some(t) => Ok(t),
        None => Err(malformed(resource, field, &x)),
    }
}

/// The `str_list` decoding of a required field, when it succeeds.
pub open spec fn str_list_at(v: serde_json::Value, field: Seq<char>) -> Option<Seq<Seq<char>>> {
    match json_get(v, field) {
        Some(x) => str_list_value(x),
        None => None,
    }
}

pub(crate) fn required_str_list(v: &serde_json::Value, resource: &str, field: &str) -> (r: Result<
    Vec<String>,
    ResponseParseError,
>)
    ensures
        r is Ok <==> str_list_at(*v, field@) is Some,
        r is Ok ==> views(r->Ok_0@) == str_list_at(*v, field@)->0,
        r is Err ==> r->Err_0.reports(*v, resource@, field@),
{
    let x = match lookup(v, resource, field) {
        Ok(x) => x,
        Err(e) => {
            return Err(e);
        },
    };
    match str_list_of(&x) {
        Some(t) => Ok(t),
        None => Err(malformed(resource, field, &x)),
    }
}

/// The `str_list` decoding of an optional field: `Some(None)` when absent or
/// `null`, nothing when present with another shape.
pub open spec fn opt_str_list_at(v: serde_json::Value, field: Seq<char>) -> Option<Option<Seq<Seq<char>>>> {
    if is_absent(v, field) {
        Some(None)
    } else {
        match str_list_at(v, field) {
            Some(t) => Some(Some(t)),
            None => None,
        }
    }
}

pub(crate) fn optional_str_list(v: &serde_json::Value, resource: &str, field: &str) -> (r: Result<
    Option<Vec<String>>,
    ResponseParseError,
>)
    ensures
        r is Ok <==> opt_str_list_at(*v, field@) is Some,
        r is Ok ==> opt_views(r->Ok_0) == opt_str_list_at(*v, field@)->0,
        r is Err ==> r->Err_0.reports(*v, resource@, field@),
{
    match get_field(v, field) {
        None => Ok(None),
        Some(x) => if is_null(&x) {
            Ok(None)
        } else {
            match str_list_of(&x) {
                Some(t) => Ok(Some(t)),
                None => Err(malformed(resource, field, &x)),
            }
        },
    }
}

/// The `map` decoding of a required field, when it succeeds.
pub open spec fn map_at(v: serde_json::Value, field: Seq<char>) -> Option<Map<Seq<char>, serde_json::Value>> {
    match json_get(v, field) {
        Some(x) => json_as_object(x),
        None => None,
    }
}

pub(crate) fn required_map(v: &serde_json::Value, resource: &str, field: &str) -> (r: Result<
    ArgumentMap,
    ResponseParseError,
>)
    ensures
        r is Ok <==> map_at(*v, field@) is Some,
        r is Ok ==> entries(r->Ok_0) == map_at(*v, field@)->0,
        r is Err ==> r->Err_0.reports(*v, resource@, field@),
{
    let x = match lookup(v, resource, field) {
        Ok(x) => x,
        Err(e) => {
            return Err(e);
        },
    };
    match map_of(&x) {
        Some(t) => Ok(t),
        None => Err(malformed(resource, field, &x)),
    }
}

/// The `map` decoding of an optional field: `Some(None)` when absent or
/// `null`, nothing when present with another shape.
pub open spec fn opt_map_at(v: serde_json::Value, field: Seq<char>) -> Option<Option<Map<Seq<char>, serde_json::Value>>> {
    if is_absent(v, field) {
        Some(None)
    } else {
        match map_at(v, field) {
            Some(t) => Some(Some(t)),
            None => None,
        }
    }
}

pub(crate) fn optional_map(v: &serde_json::Value, resource: &str, field: &str) -> (r: Result<
    Option<ArgumentMap>,
    ResponseParseError,
>)
    ensures
        r is Ok <==> opt_map_at(*v, field@) is Some,
        r is Ok ==> opt_entries(r->Ok_0) == opt_map_at(*v, field@)->0,
        r is Err ==> r->Err_0.reports(*v, resource@, field@),
{
    match get_field(v, field) {
        None => Ok(None),
        Some(x) => if is_null(&x) {
            Ok(None)
        } else {
            match map_of(&x) {
                Some(t) => Ok(Some(t)),
                None => Err(malformed(resource, field, &x)),
            }
        },
    }
}

/// The `numeric_u32` decoding of a required field, when it succeeds.
pub open spec fn numeric_u32_at(v: serde_json::Value, field: Seq<char>) -> Option<u32> {
    match json_get(v, field) {
        Some(x) => numeric_u32_value(x),
        None => None,
    }
}

pub(crate) fn required_numeric_u32(v: &serde_json::Value, resource: &str, field: &str) -> (r: Result<
    u32,
    ResponseParseError,
>)
    ensures
        r is Ok <==> numeric_u32_at(*v, field@) is Some,
        r is Ok ==> r->Ok_0 == numeric_u32_at(*v, field@)->0,
        r is Err ==> r->Err_0.reports(*v, resource@, field@),
{
    let x = match lookup(v, resource, field) {
        Ok(x) => x,
        Err(e) => {
            return Err(e);
        },
    };
    match numeric_u32_of(&x) {
        Some(t) => Ok(t),
        None => Err(malformed(resource, field, &x)),
    }
}

pub open spec fn binding_destination_at(v: serde_json::Value, field: Seq<char>) -> Option<BindingDestinationType> {
    match json_get(v, field) {
        Some(x) => binding_destination_value(x),
        None => None,
    }
}

/// A required field that names a `BindingDestinationType`: a string that names none of its
/// variants is reported as an unknown variant.
pub(crate) fn required_binding_destination(v: &serde_json::Value, resource: &str, field: &str) -> (r: Result<
    BindingDestinationType,
    ResponseParseError,
>)
    ensures
        r is Ok <==> binding_destination_at(*v, field@) is Some,
        r is Ok ==> r->Ok_0 == binding_destination_at(*v, field@)->0,
        r is Err ==> r->Err_0.reports_enum(*v, resource@, field@, "BindingDestinationType"@),
{
    let x = match lookup(v, resource, field) {
        Ok(x) => x,
        Err(e) => {
            return Err(e);
        },
    };
    let s = match as_string(&x) {
        Some(s) => s,
        None => {
            return Err(malformed(resource, field, &x));
        },
    };
    match BindingDestinationType::from_wire(s.as_str()) {
        Ok(t) => Ok(t),
        Err(u) => Err(
            ResponseParseError {
                resource: resource.to_owned(),
                field: field.to_owned(),
                failure: ParseFailure::UnknownEnumVariant { enumeration: u.enumeration, value: u.value },
            },
        ),
    }
}

pub open spec fn policy_target_at(v: serde_json::Value, field: Seq<char>) -> Option<PolicyTarget> {
    match json_get(v, field) {
        Some(x) => policy_target_value(x),
        None => None,
    }
}

/// A required field that names a `PolicyTarget`: a string that names none of its
/// variants is reported as an unknown variant.
pub(crate) fn required_policy_target(v: &serde_json::Value, resource: &str, field: &str) -> (r: Result<
    PolicyTarget,
    ResponseParseError,
>)
    ensures
        r is Ok <==> policy_target_at(*v, field@) is Some,
        r is Ok ==> r->Ok_0 == policy_target_at(*v, field@)->0,
        r is Err ==> r->Err_0.reports_enum(*v, resource@, field@, "PolicyTarget"@),
{
    let x = match lookup(v, resource, field) {
        Ok(x) => x,
        Err(e) => {
            return Err(e);
        },
    };
    let s = match as_string(&x) {
        Some(s) => s,
        None => {
            return Err(malformed(resource, field, &x));
        },
    };
    match PolicyTarget::from_wire(s.as_str()) {
        Ok(t) => Ok(t),
        Err(u) => Err(
            ResponseParseError {
                resource: resource.to_owned(),
                field: field.to_owned(),
                failure: ParseFailure::UnknownEnumVariant { enumeration: u.enumeration, value: u.value },
            },
        ),
    }
}

} // verus!
