//! The replies the service sends, as plain values.

use vstd::prelude::*;
use vstd::string::StringExecFns;

verus! {

/// The body of a reply.
pub enum ReplyBody {
    /// No body.
    Empty,
    /// A plain text body.
    Text(String),
    /// A JSON error object carrying the message.
    JsonError(String),
    /// A JSON document.
    Json(String),
}

/// A reply: an HTTP status code and a body.
pub struct Reply {
    pub status: u16,
    pub body: ReplyBody,
}

pub const STATUS_OK: u16 = 200;
pub const STATUS_BAD_REQUEST: u16 = 400;
pub const STATUS_NOT_FOUND: u16 = 404;
pub const STATUS_INTERNAL_ERROR: u16 = 500;

/// Whether `r` has status `status` and a JSON error body with message `msg`.
pub open spec fn is_json_error(r: Reply, status: u16, msg: Seq<char>) -> bool {
    r.status == status && (r.body matches ReplyBody::JsonError(m) && m@ == msg)
}

/// Whether `r` is the empty success reply.
pub open spec fn is_empty_ok(r: Reply) -> bool {
    r.status == STATUS_OK && r.body is Empty
}

/// Whether `r` has status `status` and the text body `text`.
pub open spec fn is_text(r: Reply, status: u16, text: Seq<char>) -> bool {
    r.status == status && (r.body matches ReplyBody::Text(t) && t@ == text)
}

/// The empty success reply.
pub fn empty_ok() -> (r: Reply)
    ensures
        is_empty_ok(r),
{
    Reply { status: STATUS_OK, body: ReplyBody::Empty }
}

/// The reply to a request that no handler takes: "not found", without a body.
pub fn not_found() -> (r: Reply)
    ensures
        r.status == STATUS_NOT_FOUND,
        r.body is Empty,
{
    Reply { status: STATUS_NOT_FOUND, body: ReplyBody::Empty }
}

/// A reply with status `status` whose JSON error body carries `msg`.
pub fn json_error(msg: &str, status: u16) -> (r: Reply)
    ensures
        is_json_error(r, status, msg@),
{
    Reply { status, body: ReplyBody::JsonError(String::from_str(msg)) }
}

/// The text `prefix` followed by `detail`.
pub fn message_with_detail(prefix: &str, detail: &str) -> (res: String)
    ensures
        res@ == prefix@ + detail@,
{
    let mut res = String::from_str(prefix);
    res.append(detail);
    res
}

} // verus!
