//! Guard clauses that stop a handler early with the response to send.

use vstd::prelude::*;
use crate::response::{
    res_400, res_500, text_response, Response, BAD_REQUEST, INTERNAL_SERVER_ERROR,
};

verus! {

pub open spec fn condition_message(prompt: Seq<char>) -> Seq<char> {
    "test param condition result: "@ + prompt + "."@
}

/// Goes on where `condition` holds; otherwise returns the `400 Bad Request`
/// that carries `prompt`.
pub fn t_condition(condition: bool, prompt: &str) -> (r: Result<(), Response>)
    ensures
        condition ==> r is Ok,
        !condition ==> (r matches Err(e) && e@ == text_response(
            BAD_REQUEST,
            condition_message(prompt@),
        )),
{
    if condition {
        Ok(())
    } else {
        let mut message = "test param condition result: ".to_owned();
        message.append(prompt);
        message.append(".");
        Err(res_400(message.as_str()))
    }
}

/// The connection to the database, from what looking up the request's pool
/// gave: no pool (`None`), or what asking the pool for a connection gave.
pub fn db_connection<C, E>(attempt: Option<Result<C, E>>) -> (r: Result<C, Response>)
    ensures
        match attempt {
            None => r matches Err(e) && e@ == text_response(
                INTERNAL_SERVER_ERROR,
                "no db defined"@,
            ),
            Some(Ok(c)) => r == Ok::<C, Response>(c),
            Some(Err(_)) => r matches Err(e) && e@ == text_response(
                INTERNAL_SERVER_ERROR,
                "get db connection failed"@,
            ),
        },
{
    match attempt {
        Some(Ok(c)) => Ok(c),
        Some(Err(_)) => Err(res_500("get db connection failed")),
        None => Err(res_500("no db defined")),
    }
}

/// The parameter bag that the request carries, or the `400 Bad Request` for
/// a request without one.
pub fn require_params<P>(bag: Option<P>) -> (r: Result<P, Response>)
    ensures
        match bag {
            Some(p) => r == Ok::<P, Response>(p),
            None => r matches Err(e) && e@ == text_response(BAD_REQUEST, "no params"@),
        },
{
    match bag {
        Some(p) => Ok(p),
        None => Err(res_400("no params")),
    }
}

/// The handler's own parameter type read from a JSON body, or the
/// `400 Bad Request` for a body that does not match it.
pub fn require_json_match<T, E>(decoded: Result<T, E>) -> (r: Result<T, Response>)
    ensures
        match decoded {
            Ok(t) => r == Ok::<T, Response>(t),
            Err(_) => r matches Err(e) && e@ == text_response(
                BAD_REQUEST,
                "Json parameter not match to struct."@,
            ),
        },
{
    match decoded {
        Ok(t) => Ok(t),
        Err(_) => Err(res_400("Json parameter not match to struct.")),
    }
}

} // verus!
