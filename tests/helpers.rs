use sapper_std::access::{
    member_array, member_bool, member_i64, member_number, member_object, member_text, param_bool,
    param_i64, param_text, required, with_default, Lookup,
};
use sapper_std::decimal::{parse_bool, parse_i64};
use sapper_std::guard::{db_connection, require_json_match, require_params, t_condition};
use sapper_std::json::{JsonNumber, JsonValue};
use sapper_std::params::ParamBag;
use sapper_std::response::{
    res_400, res_500, res_html, res_json, res_json_error, res_json_ok, res_redirect, Body, Response,
};

fn bag(pairs: &[(&str, &str)]) -> ParamBag {
    let mut b = ParamBag::new();
    for (k, v) in pairs {
        b.add(k.to_string(), v.to_string());
    }
    b
}

fn object(members: Vec<(&str, JsonValue)>) -> JsonValue {
    JsonValue::Object(members.into_iter().map(|(k, v)| (k.to_string(), v)).collect())
}

fn text_body(r: &Response) -> &str {
    match &r.body {
        Body::Text(t) => t.as_str(),
        other => panic!("not a text body: {:?}", other),
    }
}

#[test]
fn it_works() {}

#[test]
fn query_page_as_integer() {
    let q = bag(&[("page", "2")]);
    assert_eq!(required("page", param_i64(&q, "page")), Ok(2));
}

#[test]
fn default_page_when_query_empty() {
    let q = ParamBag::new();
    assert_eq!(with_default(param_i64(&q, "page"), 1), 1);
}

#[test]
fn missing_form_field_is_bad_request() {
    let form = ParamBag::new();
    let r = required("name", param_text(&form, "name")).unwrap_err();
    assert_eq!(r.status, 400);
    assert!(text_body(&r).contains("missing or unrecognized parameter name"));
}

#[test]
fn text_round_trips_through_bag() {
    let q = bag(&[("name", "Ada"), ("name", "Bob"), ("x", "")]);
    assert_eq!(required("name", param_text(&q, "name")).unwrap(), "Ada");
    assert_eq!(required("x", param_text(&q, "x")).unwrap(), "");
    let d = "none".to_string();
    assert_eq!(with_default(param_text(&q, "name"), &d), "Ada");
    assert_eq!(with_default(param_text(&q, "other"), &d), "none");
}

#[test]
fn integers_round_trip_through_bag() {
    for v in [0i64, 7, -7, 42, i64::MAX, i64::MIN] {
        let text = v.to_string();
        let q = bag(&[("n", text.as_str())]);
        assert_eq!(required("n", param_i64(&q, "n")), Ok(v));
    }
}

#[test]
fn malformed_integer_is_type_error() {
    for bad in ["", "-", "+", "12a", " 1", "1.5", "9223372036854775808", "-9223372036854775809"] {
        let q = bag(&[("n", bad)]);
        let r = required("n", param_i64(&q, "n")).unwrap_err();
        assert_eq!(r.status, 400);
        assert_eq!(text_body(&r), "parse parameter type error n");
        assert_eq!(with_default(param_i64(&q, "n"), 5), 5);
    }
}

#[test]
fn missing_and_type_error_messages_differ() {
    let q = bag(&[("n", "x")]);
    let malformed = required("n", param_i64(&q, "n")).unwrap_err();
    let missing = required("m", param_i64(&q, "m")).unwrap_err();
    assert_eq!(text_body(&missing), "missing or unrecognized parameter m");
    assert_ne!(text_body(&malformed), text_body(&missing));
}

#[test]
fn parse_i64_matches_std() {
    for s in ["0", "+5", "-0", "00012", "123456789", "-9223372036854775808", "9223372036854775807", "abc", "", "--1", "+-1", "١"] {
        assert_eq!(parse_i64(s), s.parse::<i64>().ok(), "{}", s);
    }
}

#[test]
fn parse_bool_matches_std() {
    for s in ["true", "false", "True", "", "1", "truee"] {
        assert_eq!(parse_bool(s), s.parse::<bool>().ok(), "{}", s);
    }
}

#[test]
fn bool_param() {
    let q = bag(&[("on", "true"), ("off", "false"), ("bad", "yes")]);
    assert_eq!(required("on", param_bool(&q, "on")), Ok(true));
    assert_eq!(required("off", param_bool(&q, "off")), Ok(false));
    assert_eq!(param_bool(&q, "bad"), Lookup::Malformed);
    assert_eq!(param_bool(&q, "none"), Lookup::Missing);
}

#[test]
fn json_members_by_type() {
    let inner = object(vec![("k", JsonValue::Null)]);
    let body = object(vec![
        ("s", JsonValue::Str("hi".to_string())),
        ("i", JsonValue::Number(JsonNumber::I64(-3))),
        ("u", JsonValue::Number(JsonNumber::U64(9))),
        ("big", JsonValue::Number(JsonNumber::U64(u64::MAX))),
        ("f", JsonValue::Number(JsonNumber::Float(1.5f64.to_bits()))),
        ("b", JsonValue::Bool(true)),
        ("m", inner),
        ("a", JsonValue::Array(vec![JsonValue::Bool(false)])),
    ]);
    assert_eq!(required("s", member_text(&body, "s")).unwrap(), "hi");
    assert_eq!(required("i", member_i64(&body, "i")), Ok(-3));
    assert_eq!(required("u", member_i64(&body, "u")), Ok(9));
    assert_eq!(member_i64(&body, "big"), Lookup::Malformed);
    assert_eq!(member_number(&body, "f"), Lookup::Found(JsonNumber::Float(1.5f64.to_bits())));
    assert_eq!(member_number(&body, "s"), Lookup::Malformed);
    assert_eq!(required("b", member_bool(&body, "b")), Ok(true));
    let m = required("m", member_object(&body, "m")).unwrap();
    assert_eq!(m.len(), 1);
    assert_eq!(m[0].0, "k");
    let a = required("a", member_array(&body, "a")).unwrap();
    assert_eq!(a, &vec![JsonValue::Bool(false)]);
    assert_eq!(member_array(&body, "m"), Lookup::Malformed);
}

#[test]
fn json_missing_member_and_defaults() {
    let body = object(vec![("b", JsonValue::Str("no".to_string()))]);
    let r = required("x", member_bool(&body, "x")).unwrap_err();
    assert_eq!(text_body(&r), "missing or unrecognized parameter x");
    let r = required("b", member_bool(&body, "b")).unwrap_err();
    assert_eq!(text_body(&r), "parse parameter type error b");
    assert_eq!(with_default(member_bool(&body, "b"), true), true);
    assert_eq!(with_default(member_i64(&body, "x"), 10), 10);
    // a body that is not an object has no members
    assert_eq!(member_i64(&JsonValue::Null, "x"), Lookup::Missing);
}

#[test]
fn first_member_of_a_name_counts() {
    let body = object(vec![
        ("k", JsonValue::Number(JsonNumber::I64(1))),
        ("k", JsonValue::Number(JsonNumber::I64(2))),
    ]);
    assert_eq!(required("k", member_i64(&body, "k")), Ok(1));
}

#[test]
fn redirect_sets_location() {
    let r = res_redirect("/login?next=a b");
    assert_eq!(r.status, 302);
    assert_eq!(r.location.as_deref(), Some("/login?next=a b"));
    assert_eq!(text_body(&r), "redirect to /login?next=a b");
}

#[test]
fn plain_error_responses() {
    let r = res_400("bad");
    assert_eq!(r, Response { status: 400, location: None, body: Body::Text("bad".to_string()) });
    let r = res_500("boom");
    assert_eq!(r.status, 500);
    assert_eq!(text_body(&r), "boom");
}

#[test]
fn json_envelopes() {
    let info = object(vec![("list", JsonValue::Array(vec![JsonValue::Number(JsonNumber::U64(1))]))]);
    let ok = res_json_ok(info);
    assert_eq!(ok.status, 200);
    let expected = object(vec![
        ("success", JsonValue::Bool(true)),
        ("info", object(vec![("list", JsonValue::Array(vec![JsonValue::Number(JsonNumber::U64(1))]))])),
    ]);
    assert_eq!(ok.body, Body::Json(expected));
    let err = res_json_error(JsonValue::Str("nope".to_string()));
    assert_eq!(
        err.body,
        Body::Json(object(vec![("success", JsonValue::Bool(false)), ("info", JsonValue::Str("nope".to_string()))]))
    );
    assert_eq!(res_json(JsonValue::Null).body, Body::Json(JsonValue::Null));
}

#[test]
fn html_page() {
    let r = res_html("<p>hi</p>".to_string());
    assert_eq!(r.status, 200);
    assert_eq!(r.body, Body::Html("<p>hi</p>".to_string()));
}

#[test]
fn condition_guard() {
    assert_eq!(t_condition(true, "x > 0"), Ok(()));
    let r = t_condition(false, "x > 0").unwrap_err();
    assert_eq!(r.status, 400);
    assert_eq!(text_body(&r), "test param condition result: x > 0.");
}

#[test]
fn db_connection_outcomes() {
    assert_eq!(db_connection::<u32, ()>(Some(Ok(7))), Ok(7));
    let none = db_connection::<u32, ()>(None).unwrap_err();
    assert_eq!(none.status, 500);
    assert_eq!(text_body(&none), "no db defined");
    let failed = db_connection::<u32, &str>(Some(Err("refused"))).unwrap_err();
    assert_eq!(failed.status, 500);
    assert_eq!(text_body(&failed), "get db connection failed");
}

#[test]
fn params_and_json_match_guards() {
    assert_eq!(require_params(Some(3)), Ok(3));
    let r = require_params::<u8>(None).unwrap_err();
    assert_eq!((r.status, text_body(&r)), (400, "no params"));
    assert_eq!(require_json_match::<u8, ()>(Ok(1)), Ok(1));
    let r = require_json_match::<u8, ()>(Err(())).unwrap_err();
    assert_eq!(text_body(&r), "Json parameter not match to struct.");
}
