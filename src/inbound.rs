use vstd::prelude::*;
use crate::json::{Json, member, find_key};

verus! {

/// An event pushed by the server: a method name and its parameter list.
#[derive(Debug, PartialEq)]
pub struct Notification {
    pub method: String,
    pub params: Vec<Json>,
}

/// What a reply says about the call it answers.
#[derive(Debug, PartialEq)]
pub enum Outcome {
    Success(Json),
    Remote { code: i64, message: String },
}

/// How the reader sees one inbound message.
#[derive(Debug, PartialEq)]
pub enum Inbound {
    Reply { id: u64, outcome: Outcome },
    Notice(Notification),
    Malformed,
}

/// The outcome carried by an error member that has an integer `code` and a
/// string `message`.
pub open spec fn remote_error_of(e: Seq<(String, Json)>) -> Option<Outcome> {
    match (member(e, "code"@), member(e, "message"@)) {
        (Some(Json::Int(code)), Some(Json::Text(message))) => Some(
            Outcome::Remote { code, message },
        ),
        _ => None,
    }
}

/// The outcome of a reply object: a well-formed `error` wins, otherwise
/// `result` (an `error` of `null` counts as absent).
pub open spec fn outcome_of(f: Seq<(String, Json)>) -> Option<Outcome> {
    match member(f, "error"@) {
        Some(Json::Object(e)) => remote_error_of(e@),
        Some(Json::Null) | None => match member(f, "result"@) {
            Some(v) => Some(Outcome::Success(v)),
            None => None,
        },
        _ => None,
    }
}

/// Classification of one decoded message: an object with a non-negative
/// integer `id` is a reply, an object without `id` but with a string
/// `method` is a notification (with `params`, an array, defaulting to
/// empty), anything else is malformed.
pub open spec fn is_classification(msg: Json, r: Inbound) -> bool {
    match msg {
        Json::Object(f) => match member(f@, "id"@) {
            Some(Json::Int(n)) => if n >= 0 {
                match outcome_of(f@) {
                    Some(outcome) => r == Inbound::Reply { id: n as u64, outcome },
                    None => r is Malformed,
                }
            } else {
                r is Malformed
            },
            Some(_) => r is Malformed,
            None => match member(f@, "method"@) {
                Some(Json::Text(method)) => match member(f@, "params"@) {
                    None => match r {
                        Inbound::Notice(n) => n.method == method && n.params@.len() == 0,
                        _ => false,
                    },
                    Some(Json::Array(params)) => r == Inbound::Notice(
                        Notification { method, params },
                    ),
                    Some(_) => r is Malformed,
                },
                _ => r is Malformed,
            },
        },
        _ => r is Malformed,
    }
}

fn remote_error(e: &Vec<(String, Json)>) -> (r: Option<Outcome>)
    ensures
        r == remote_error_of(e@),
{
    let code_at = find_key(e, &"code".to_owned());
    let message_at = find_key(e, &"message".to_owned());
    match (code_at, message_at) {
        (Some(c), Some(m)) => match (&e[c].1, &e[m].1) {
            (Json::Int(code), Json::Text(message)) => Some(
                Outcome::Remote { code: *code, message: message.clone() },
            ),
            _ => None,
        },
        _ => None,
    }
}

fn reply_outcome(mut f: Vec<(String, Json)>) -> (r: Option<Outcome>)
    ensures
        r == outcome_of(f@),
{
    match find_key(&f, &"error".to_owned()) {
        Some(i) => {
            match &f[i].1 {
                Json::Object(e) => {
                    return remote_error(e);
                },
                Json::Null => {},
                _ => {
                    return None;
                },
            }
        },
        None => {},
    }
    match find_key(&f, &"result".to_owned()) {
        Some(j) => {
            let (_, v) = f.swap_remove(j);
            Some(Outcome::Success(v))
        },
        None => None,
    }
}

/// Classifies one decoded inbound message.
pub fn classify(msg: Json) -> (r: Inbound)
    ensures
        is_classification(msg, r),
{
    match msg {
        Json::Object(mut f) => {
            match find_key(&f, &"id".to_owned()) {
                Some(i) => {
                    let id: i64 = match &f[i].1 {
                        Json::Int(n) => *n,
                        _ => -1,
                    };
                    if id < 0 {
                        return Inbound::Malformed;
                    }
                    match reply_outcome(f) {
                        Some(outcome) => Inbound::Reply { id: id as u64, outcome },
                        None => Inbound::Malformed,
                    }
                },
                None => {
                    let method = match find_key(&f, &"method".to_owned()) {
                        Some(m) => match &f[m].1 {
                            Json::Text(s) => s.clone(),
                            _ => {
                                return Inbound::Malformed;
                            },
                        },
                        None => {
                            return Inbound::Malformed;
                        },
                    };
                    match find_key(&f, &"params".to_owned()) {
                        None => Inbound::Notice(Notification { method, params: Vec::new() }),
                        Some(p) => {
                            let (_, v) = f.swap_remove(p);
                            match v {
                                Json::Array(params) => Inbound::Notice(Notification { method, params }),
                                _ => Inbound::Malformed,
                            }
                        },
                    }
                },
            }
        },
        _ => Inbound::Malformed,
    }
}

} // verus!
