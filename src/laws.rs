//! What holds of every lookup, whatever the bag, the field and the wanted type.

use vstd::prelude::*;
use crate::access::{default_of, lookup_of, missing_message, required_of, type_error_message};
use crate::decimal::{decimal_text, i64_of_text, law_i64_text_round_trip};
use crate::json::{json_i64, json_member, JsonNumber, JsonValue};
use crate::params::{first_value, with_added};
use crate::response::{text_response, ResponseView, BAD_REQUEST};

verus! {

/// A field that a parameter bag lacks: `required` stops the handler with the
/// "missing" `400 Bad Request`, and `with_default` gives exactly the default.
pub proof fn law_absent_param<T>(
    bag: Map<Seq<char>, Seq<Seq<char>>>,
    field: Seq<char>,
    coerce: spec_fn(Seq<char>) -> Option<T>,
    default: T,
)
    requires
        !bag.contains_key(field),
    ensures
        required_of(field, lookup_of(first_value(bag, field), coerce)) == Err::<T, ResponseView>(
            text_response(BAD_REQUEST, missing_message(field)),
        ),
        default_of(lookup_of(first_value(bag, field), coerce), default) == default,
{
}

/// A member that a JSON body lacks: `required` stops the handler with the
/// "missing" `400 Bad Request`, and `with_default` gives exactly the default.
pub proof fn law_absent_member<T>(
    params: JsonValue,
    field: Seq<char>,
    coerce: spec_fn(JsonValue) -> Option<T>,
    default: T,
)
    requires
        json_member(params, field) is None,
    ensures
        required_of(field, lookup_of(json_member(params, field), coerce)) == Err::<
            T,
            ResponseView,
        >(text_response(BAD_REQUEST, missing_message(field))),
        default_of(lookup_of(json_member(params, field), coerce), default) == default,
{
}

/// A field whose text reads as a value of the wanted type: `required` and
/// `with_default` both give that value.
pub proof fn law_present_param<T>(
    bag: Map<Seq<char>, Seq<Seq<char>>>,
    field: Seq<char>,
    coerce: spec_fn(Seq<char>) -> Option<T>,
    text: Seq<char>,
    value: T,
    default: T,
)
    requires
        first_value(bag, field) == Some(text),
        coerce(text) == Some(value),
    ensures
        required_of(field, lookup_of(first_value(bag, field), coerce)) == Ok::<T, ResponseView>(
            value,
        ),
        default_of(lookup_of(first_value(bag, field), coerce), default) == value,
{
}

/// A member of the wanted type: `required` and `with_default` both give it.
pub proof fn law_present_member<T>(
    params: JsonValue,
    field: Seq<char>,
    coerce: spec_fn(JsonValue) -> Option<T>,
    member: JsonValue,
    value: T,
    default: T,
)
    requires
        json_member(params, field) == Some(member),
        coerce(member) == Some(value),
    ensures
        required_of(field, lookup_of(json_member(params, field), coerce)) == Ok::<
            T,
            ResponseView,
        >(value),
        default_of(lookup_of(json_member(params, field), coerce), default) == value,
{
}

/// A text put in a bag comes back unchanged from `required`.
pub proof fn law_text_param_round_trip(
    bag: Map<Seq<char>, Seq<Seq<char>>>,
    field: Seq<char>,
    text: Seq<char>,
)
    requires
        first_value(bag, field) == Some(text),
    ensures
        required_of(field, lookup_of(first_value(bag, field), |s: Seq<char>| Some(s))) == Ok::<
            Seq<char>,
            ResponseView,
        >(text),
{
}

/// The first text added for a field is the one that lookups read, whatever
/// is added after it.
pub proof fn law_first_added_is_read(
    bag: Map<Seq<char>, Seq<Seq<char>>>,
    field: Seq<char>,
    text: Seq<char>,
    key: Seq<char>,
    later: Seq<char>,
)
    requires
        !bag.contains_key(field),
    ensures
        first_value(with_added(bag, field, text), field) == Some(text),
        first_value(with_added(with_added(bag, field, text), key, later), field) == Some(text),
{
    let once = with_added(bag, field, text);
    assert(once[field] == seq![text]);
    if key == field {
        assert(with_added(once, key, later)[field] == seq![text].push(later));
    }
}

/// An `i64` put in a bag as its decimal text comes back unchanged from
/// `required`.
pub proof fn law_i64_param_round_trip(bag: Map<Seq<char>, Seq<Seq<char>>>, field: Seq<char>, v: i64)
    requires
        first_value(bag, field) == Some(decimal_text(v as int)),
    ensures
        required_of(field, lookup_of(first_value(bag, field), |s: Seq<char>| i64_of_text(s)))
            == Ok::<i64, ResponseView>(v),
{
    law_i64_text_round_trip(v);
}

/// An `i64` member of a JSON body comes back unchanged from `required`.
pub proof fn law_i64_member_round_trip(params: JsonValue, field: Seq<char>, v: i64)
    requires
        json_member(params, field) == Some(JsonValue::Number(JsonNumber::I64(v))),
    ensures
        required_of(field, lookup_of(json_member(params, field), |x: JsonValue| json_i64(x)))
            == Ok::<i64, ResponseView>(v),
{
}

/// The two texts of a `400 Bad Request` from a lookup differ for every field.
pub proof fn law_messages_differ(field: Seq<char>)
    ensures
        type_error_message(field) != missing_message(field),
{
    reveal_strlit("parse parameter type error ");
    reveal_strlit("missing or unrecognized parameter ");
    assert(type_error_message(field)[0] != missing_message(field)[0]);
}

/// A field whose text does not read as the wanted type: `required` stops the
/// handler with the "type error" `400 Bad Request`, not the "missing" one.
pub proof fn law_malformed_param<T>(
    bag: Map<Seq<char>, Seq<Seq<char>>>,
    field: Seq<char>,
    coerce: spec_fn(Seq<char>) -> Option<T>,
    text: Seq<char>,
)
    requires
        first_value(bag, field) == Some(text),
        coerce(text) is None,
    ensures
        required_of(field, lookup_of(first_value(bag, field), coerce)) == Err::<T, ResponseView>(
            text_response(BAD_REQUEST, type_error_message(field)),
        ),
        type_error_message(field) != missing_message(field),
{
    law_messages_differ(field);
}

/// A member of another type than the wanted one: `required` stops the handler
/// with the "type error" `400 Bad Request`, not the "missing" one.
pub proof fn law_malformed_member<T>(
    params: JsonValue,
    field: Seq<char>,
    coerce: spec_fn(JsonValue) -> Option<T>,
    member: JsonValue,
)
    requires
        json_member(params, field) == Some(member),
        coerce(member) is None,
    ensures
        required_of(field, lookup_of(json_member(params, field), coerce)) == Err::<
            T,
            ResponseView,
        >(text_response(BAD_REQUEST, type_error_message(field))),
        type_error_message(field) != missing_message(field),
{
    law_messages_differ(field);
}

} // verus!
