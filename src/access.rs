//! Typed access to a request's parameters. A lookup finds a field and coerces
//! it; `required` then hands the value on or stops the handler with a
//! `400 Bad Request`, and `with_default` falls back to a value of the caller's.

use vstd::prelude::*;
use crate::decimal::{bool_of_text, i64_of_text, parse_bool, parse_i64};
use crate::json::{
    json_bool, json_i64, json_items, json_member, json_members, json_number, json_text, JsonNumber,
    JsonValue,
};
use crate::params::{first_value, ParamBag};
use crate::response::{res_400, text_response, Response, ResponseView, BAD_REQUEST};

verus! {

/// What looking up a field gave: nothing under that name, something that is
/// not of the wanted type, or a value of that type.
#[derive(Debug, PartialEq)]
pub enum Lookup<T> {
    Missing,
    Malformed,
    Found(T),
}

impl<T: View> View for Lookup<T> {
    type V = Lookup<T::V>;

    open spec fn view(&self) -> Lookup<T::V> {
        match self {
            Lookup::Missing => Lookup::Missing,
            Lookup::Malformed => Lookup::Malformed,
            Lookup::Found(t) => Lookup::Found(t@),
        }
    }
}

/// The lookup of a raw field value `raw` (none if the field is absent)
/// coerced by `coerce` to the wanted type.
pub open spec fn lookup_of<R, T>(raw: Option<R>, coerce: spec_fn(R) -> Option<T>) -> Lookup<T> {
    match raw {
        None => Lookup::Missing,
        Some(x) => match coerce(x) {
            Some(t) => Lookup::Found(t),
            None => Lookup::Malformed,
        },
    }
}

pub open spec fn missing_message(field: Seq<char>) -> Seq<char> {
    "missing or unrecognized parameter "@ + field
}

pub open spec fn type_error_message(field: Seq<char>) -> Seq<char> {
    "parse parameter type error "@ + field
}

/// The value found, or the `400 Bad Request` that stops the handler.
pub open spec fn required_of<T>(field: Seq<char>, found: Lookup<T>) -> Result<T, ResponseView> {
    match found {
        Lookup::Found(t) => Ok(t),
        Lookup::Missing => Err(text_response(BAD_REQUEST, missing_message(field))),
        Lookup::Malformed => Err(text_response(BAD_REQUEST, type_error_message(field))),
    }
}

/// The value found, or `default`.
pub open spec fn default_of<T>(found: Lookup<T>, default: T) -> T {
    match found {
        Lookup::Found(t) => t,
        _ => default,
    }
}

pub open spec fn outcome<T: View>(r: Result<T, Response>) -> Result<T::V, ResponseView> {
    match r {
        Ok(t) => Ok(t@),
        Err(e) => Err(e@),
    }
}

/// Hands on the value found under `field`; where there is none, or it has the
/// wrong type, returns the `400 Bad Request` that the handler must return.
pub fn required<T: View>(field: &str, found: Lookup<T>) -> (r: Result<T, Response>)
    ensures
        outcome(r) == required_of(field@, found@),
        found matches Lookup::Found(t) ==> r == Ok::<T, Response>(t),
{
    match found {
        Lookup::Found(t) => Ok(t),
        Lookup::Missing => {
            let mut message = "missing or unrecognized parameter ".to_owned();
            message.append(field);
            Err(res_400(message.as_str()))
        },
        Lookup::Malformed => {
            let mut message = "parse parameter type error ".to_owned();
            message.append(field);
            Err(res_400(message.as_str()))
        },
    }
}

/// The value found under `field`, or `default` where there is none or it has
/// the wrong type.
pub fn with_default<T: View>(found: Lookup<T>, default: T) -> (r: T)
    ensures
        r == default_of(found, default),
        r@ == default_of(found@, default@),
{
    match found {
        Lookup::Found(t) => t,
        _ => default,
    }
}

/// The first text given for `field`.
pub fn param_text<'a>(bag: &'a ParamBag, field: &str) -> (r: Lookup<&'a String>)
    ensures
        r@ == lookup_of(first_value(bag@, field@), |s: Seq<char>| Some(s)),
{
    match bag.first(field) {
        Some(t) => Lookup::Found(t),
        None => Lookup::Missing,
    }
}

/// The first text given for `field`, read as a decimal integer.
pub fn param_i64(bag: &ParamBag, field: &str) -> (r: Lookup<i64>)
    ensures
        r@ == lookup_of(first_value(bag@, field@), |s: Seq<char>| i64_of_text(s)),
{
    match bag.first(field) {
        Some(t) => match parse_i64(t.as_str()) {
            Some(n) => Lookup::Found(n),
            None => Lookup::Malformed,
        },
        None => Lookup::Missing,
    }
}

/// The first text given for `field`, read as `true` or `false`.
pub fn param_bool(bag: &ParamBag, field: &str) -> (r: Lookup<bool>)
    ensures
        r@ == lookup_of(first_value(bag@, field@), |s: Seq<char>| bool_of_text(s)),
{
    match bag.first(field) {
        Some(t) => match parse_bool(t.as_str()) {
            Some(b) => Lookup::Found(b),
            None => Lookup::Malformed,
        },
        None => Lookup::Missing,
    }
}

/// The string member `field` of a JSON body.
pub fn member_text<'a>(params: &'a JsonValue, field: &str) -> (r: Lookup<&'a String>)
    ensures
        r@ == lookup_of(json_member(*params, field@), |v: JsonValue| json_text(v)),
{
    match params.get(field) {
        Some(v) => match v.as_str() {
            Some(s) => Lookup::Found(s),
            None => Lookup::Malformed,
        },
        None => Lookup::Missing,
    }
}

/// The integer member `field` of a JSON body, where it fits `i64`.
pub fn member_i64(params: &JsonValue, field: &str) -> (r: Lookup<i64>)
    ensures
        r@ == lookup_of(json_member(*params, field@), |v: JsonValue| json_i64(v)),
{
    match params.get(field) {
        Some(v) => match v.as_i64() {
            Some(n) => Lookup::Found(n),
            None => Lookup::Malformed,
        },
        None => Lookup::Missing,
    }
}

/// The numeric member `field` of a JSON body, integer or float.
pub fn member_number(params: &JsonValue, field: &str) -> (r: Lookup<JsonNumber>)
    ensures
        r@ == lookup_of(json_member(*params, field@), |v: JsonValue| json_number(v)),
{
    match params.get(field) {
        Some(v) => match v.as_number() {
            Some(n) => Lookup::Found(n),
            None => Lookup::Malformed,
        },
        None => Lookup::Missing,
    }
}

/// The boolean member `field` of a JSON body.
pub fn member_bool(params: &JsonValue, field: &str) -> (r: Lookup<bool>)
    ensures
        r@ == lookup_of(json_member(*params, field@), |v: JsonValue| json_bool(v)),
{
    match params.get(field) {
        Some(v) => match v.as_bool() {
            Some(b) => Lookup::Found(b),
            None => Lookup::Malformed,
        },
        None => Lookup::Missing,
    }
}

/// The object member `field` of a JSON body.
pub fn member_object<'a>(params: &'a JsonValue, field: &str) -> (r: Lookup<
    &'a Vec<(String, JsonValue)>,
>)
    ensures
        r@ == lookup_of(json_member(*params, field@), |v: JsonValue| json_members(v)),
{
    match params.get(field) {
        Some(v) => match v.as_object() {
            Some(m) => Lookup::Found(m),
            None => Lookup::Malformed,
        },
        None => Lookup::Missing,
    }
}

/// The array member `field` of a JSON body.
pub fn member_array<'a>(params: &'a JsonValue, field: &str) -> (r: Lookup<&'a Vec<JsonValue>>)
    ensures
        r@ == lookup_of(json_member(*params, field@), |v: JsonValue| json_items(v)),
{
    match params.get(field) {
        Some(v) => match v.as_array() {
            Some(a) => Lookup::Found(a),
            None => Lookup::Malformed,
        },
        None => Lookup::Missing,
    }
}

} // verus!
