//! Reading stored log records back: the query a client asks for, and the
//! answer it gets.

use vstd::prelude::*;
use vstd::string::StringExecFns;
use crate::reply::{is_json_error, json_error, Reply, ReplyBody, STATUS_BAD_REQUEST, STATUS_INTERNAL_ERROR, STATUS_OK};
use crate::text::same_text;

verus! {

/// The value of the first parameter named `key`, if any.
pub open spec fn param_value(params: Seq<(String, String)>, key: Seq<char>) -> Option<Seq<char>>
    decreases params.len(),
{
    if params.len() == 0 {
        None
    } else if params[0].0@ == key {
        Some(params[0].1@)
    } else {
        param_value(params.drop_first(), key)
    }
}

/// The value found for a name is the value of the first parameter with that
/// name, exactly as given.
pub proof fn lemma_param_value_first_entry(params: Seq<(String, String)>, key: Seq<char>, i: int)
    requires
        0 <= i < params.len(),
        params[i].0@ == key,
        forall|j: int| 0 <= j < i ==> params[j].0@ != key,
    ensures
        param_value(params, key) == Some(params[i].1@),
    decreases i,
{
    if i > 0 {
        lemma_param_value_first_entry(params.drop_first(), key, i - 1);
    }
}

/// No value is found for a name that no parameter has.
pub proof fn lemma_param_value_absent(params: Seq<(String, String)>, key: Seq<char>)
    requires
        forall|j: int| 0 <= j < params.len() ==> params[j].0@ != key,
    ensures
        param_value(params, key) is None,
    decreases params.len(),
{
    if params.len() > 0 {
        lemma_param_value_absent(params.drop_first(), key);
    }
}

/// Looks up the first parameter named `key`.
pub fn find_param(params: &Vec<(String, String)>, key: &str) -> (res: Option<String>)
    ensures
        match res {
            Some(v) => param_value(params@, key@) == Some(v@),
            None => param_value(params@, key@) is None,
        },
{
    let n = params.len();
    assert(params@.skip(0) =~= params@);
    for i in 0..n
        invariant
            n == params@.len(),
            param_value(params@, key@) == param_value(params@.skip(i as int), key@),
    {
        assert(params@.skip(i as int)[0] == params@[i as int]);
        assert(params@.skip(i as int).drop_first() =~= params@.skip(i + 1));
        if same_text(params[i].0.as_str(), key) {
            return Some(params[i].1.clone());
        }
    }
    assert(params@.skip(n as int) =~= Seq::<(String, String)>::empty());
    None
}

/// The records a client asks for: those of one service between two dates.
pub struct LogQuery {
    pub date_from: String,
    pub date_to: String,
    pub service_name: String,
}

pub const MSG_NO_DATE_FROM: &'static str = "Parameter dateFrom is empty";
pub const MSG_NO_DATE_TO: &'static str = "Parameter dateTo is empty";
pub const MSG_NO_SERVICE_NAME: &'static str = "Parameter serviceName is empty";

/// Whether `q` holds exactly the three given texts.
pub open spec fn query_is(q: LogQuery, date_from: Seq<char>, date_to: Seq<char>, service_name: Seq<char>) -> bool {
    q.date_from@ == date_from && q.date_to@ == date_to && q.service_name@ == service_name
}

/// The query of a request for stored records. Without query parameters the
/// three fields are empty. With them, `dateFrom`, `dateTo` and `serviceName`
/// must each be given, checked in that order; the first one missing is
/// answered with status 400 and a message that names it.
pub fn log_query_from_params(params: Option<&Vec<(String, String)>>) -> (res: Result<LogQuery, Reply>)
    ensures
        match params {
            None => res matches Ok(q) && query_is(q, Seq::empty(), Seq::empty(), Seq::empty()),
            Some(p) => {
                let from = param_value(p@, "dateFrom"@);
                let to = param_value(p@, "dateTo"@);
                let service = param_value(p@, "serviceName"@);
                if from is None {
                    res matches Err(r) && is_json_error(r, STATUS_BAD_REQUEST, MSG_NO_DATE_FROM@)
                } else if to is None {
                    res matches Err(r) && is_json_error(r, STATUS_BAD_REQUEST, MSG_NO_DATE_TO@)
                } else if service is None {
                    res matches Err(r) && is_json_error(r, STATUS_BAD_REQUEST, MSG_NO_SERVICE_NAME@)
                } else {
                    res matches Ok(q) && query_is(q, from->0, to->0, service->0)
                }
            },
        },
{
    match params {
        None => Ok(LogQuery { date_from: String::new(), date_to: String::new(), service_name: String::new() }),
        Some(p) => {
            let date_from = match find_param(p, "dateFrom") {
                Some(v) => v,
                None => return Err(json_error(MSG_NO_DATE_FROM, STATUS_BAD_REQUEST)),
            };
            let date_to = match find_param(p, "dateTo") {
                Some(v) => v,
                None => return Err(json_error(MSG_NO_DATE_TO, STATUS_BAD_REQUEST)),
            };
            let service_name = match find_param(p, "serviceName") {
                Some(v) => v,
                None => return Err(json_error(MSG_NO_SERVICE_NAME, STATUS_BAD_REQUEST)),
            };
            Ok(LogQuery { date_from, date_to, service_name })
        },
    }
}

/// How fetching the records went.
pub enum FetchOutcome {
    /// The database could not be reached.
    DatabaseUnavailable,
    /// The records could not be written as JSON.
    NotSerializable,
    /// The records, written as a JSON array.
    Records(String),
}

pub const MSG_DB_UNAVAILABLE: &'static str = "Error while acquiring DB connection";
pub const MSG_NOT_SERIALIZABLE: &'static str = "Error serializing logs to JSON";

/// The answer to a request for stored records.
pub fn get_log_reply(outcome: FetchOutcome) -> (r: Reply)
    ensures
        match outcome {
            FetchOutcome::DatabaseUnavailable => is_json_error(r, STATUS_INTERNAL_ERROR, MSG_DB_UNAVAILABLE@),
            FetchOutcome::NotSerializable => is_json_error(r, STATUS_INTERNAL_ERROR, MSG_NOT_SERIALIZABLE@),
            FetchOutcome::Records(json) => r.status == STATUS_OK && (r.body matches ReplyBody::Json(j) && j@ == json@),
        },
{
    match outcome {
        FetchOutcome::DatabaseUnavailable => json_error(MSG_DB_UNAVAILABLE, STATUS_INTERNAL_ERROR),
        FetchOutcome::NotSerializable => json_error(MSG_NOT_SERIALIZABLE, STATUS_INTERNAL_ERROR),
        FetchOutcome::Records(json) => Reply { status: STATUS_OK, body: ReplyBody::Json(json) },
    }
}

} // verus!
