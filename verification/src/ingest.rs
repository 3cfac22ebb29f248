//! Receiving a posted log record.

use vstd::prelude::*;
use vstd::utf8::{valid_utf8, decode_utf8, encode_utf8};
use vstd::string::StringExecFns;
use crate::clock::{chrono_accepts, log_timestamp, log_timestamp_text};
use crate::events::LogEvent;
use crate::reply::{empty_ok, is_empty_ok, is_text, Reply, ReplyBody, STATUS_INTERNAL_ERROR};
use crate::text::{string_push, utf8_to_string};

verus! {

/// Whether a header byte is visible ASCII or a tab: the bytes that an HTTP
/// header value may hold for it to be read as text (`HeaderValue::to_str`).
pub open spec fn visible_header_byte(b: u8) -> bool {
    (32 <= b && b < 127) || b == 9
}

/// The text of a header value: its bytes as characters when all of them are
/// visible ASCII or tabs, and nothing otherwise.
pub open spec fn header_text(bytes: Seq<u8>) -> Option<Seq<char>> {
    if forall|i: int| 0 <= i < bytes.len() ==> visible_header_byte(#[trigger] bytes[i]) {
        Some(bytes.map_values(|b: u8| b as char))
    } else {
        None
    }
}

/// Reads a header value as text, as `HeaderValue::to_str` does.
pub fn header_value_text(bytes: &[u8]) -> (res: Option<String>)
    ensures
        match res {
            Some(s) => header_text(bytes@) == Some(s@),
            None => header_text(bytes@) is None,
        },
{
    let mut text = String::new();
    let n = bytes.len();
    for i in 0..n
        invariant
            n == bytes@.len(),
            forall|k: int| 0 <= k < i ==> visible_header_byte(#[trigger] bytes@[k]),
            text@ == bytes@.take(i as int).map_values(|b: u8| b as char),
    {
        let b = bytes[i];
        if !((32 <= b && b < 127) || b == 9) {
            assert(!visible_header_byte(bytes@[i as int]));
            return None;
        }
        string_push(&mut text, b as char);
        assert(text@ =~= bytes@.take(i + 1).map_values(|b: u8| b as char));
    }
    assert(bytes@.take(n as int) =~= bytes@);
    Some(text)
}

pub const UNKNOWN_SERVICE: &'static str = "Unknown Service";
pub const MSG_CANNOT_STRINGIFY: &'static str = "Cannot stringify body";

/// The name of the service that posted a record: the text of its `Service`
/// header, or "Unknown Service" when there is none or it is not text.
pub open spec fn service_name_of(header: Option<Seq<u8>>) -> Seq<char> {
    match header {
        Some(h) => match header_text(h) {
            Some(t) => t,
            None => UNKNOWN_SERVICE@,
        },
        None => UNKNOWN_SERVICE@,
    }
}

/// The bytes of a header that may be missing.
pub open spec fn header_view(header: Option<&[u8]>) -> Option<Seq<u8>> {
    match header {
        Some(h) => Some(h@),
        None => None,
    }
}

/// The name of the service that posted a record, from its `Service` header.
pub fn service_name(header: Option<&[u8]>) -> (name: String)
    ensures
        name@ == service_name_of(header_view(header)),
{
    match header {
        Some(h) => match header_value_text(h) {
            Some(t) => t,
            None => String::from_str(UNKNOWN_SERVICE),
        },
        None => String::from_str(UNKNOWN_SERVICE),
    }
}

/// What becomes of a posted record.
pub enum Dispatch {
    /// Nothing: the record was not accepted.
    Nothing,
    /// Hold the record back until the rotation is over.
    Hold(LogEvent),
    /// Publish the record to the subscribers that store it.
    Publish(LogEvent),
}

/// The record that a dispatch holds back or publishes.
pub open spec fn dispatched(d: Dispatch) -> Option<LogEvent> {
    match d {
        Dispatch::Nothing => None,
        Dispatch::Hold(e) => Some(e),
        Dispatch::Publish(e) => Some(e),
    }
}

/// The answer to a posted record and what becomes of the record.
pub struct PostLogOutcome {
    pub reply: Reply,
    pub dispatch: Dispatch,
}

/// Whether `o` is the service's answer to a posted record, given whether a
/// rotation is in progress, the `Service` header, the body and the record's
/// time stamp: a body that is not UTF-8 text is answered with "Cannot
/// stringify body" and status 500 and the record is dropped; an accepted
/// record, named after the header and stamped with `timestamp`, is held back
/// while a rotation is in progress and published otherwise, and answered
/// with the empty success reply.
pub open spec fn post_log_result(
    o: PostLogOutcome,
    rotation_active: bool,
    header: Option<Seq<u8>>,
    body: Seq<u8>,
    timestamp: Seq<char>,
) -> bool {
    if !valid_utf8(body) {
        &&& is_text(o.reply, STATUS_INTERNAL_ERROR, MSG_CANNOT_STRINGIFY@)
        &&& o.dispatch is Nothing
    } else {
        &&& is_empty_ok(o.reply)
        &&& (if rotation_active { o.dispatch is Hold } else { o.dispatch is Publish })
        &&& dispatched(o.dispatch) matches Some(e)
        &&& e.timestamp@ == timestamp
        &&& e.entity@ == service_name_of(header)
        &&& e.data@ == decode_utf8(body)
    }
}

/// Receives a record posted at the UTC time `secs` seconds and `nanos`
/// nanoseconds after the Unix epoch. The record is stamped with that time as
/// `log_timestamp` writes it. Only for an accepted record at a time chrono
/// does not accept is there no outcome.
pub fn handle_post_log(
    rotation_active: bool,
    service_header: Option<&[u8]>,
    body: &[u8],
    secs: i64,
    nanos: u32,
) -> (res: Option<PostLogOutcome>)
    ensures
        !valid_utf8(body@) ==> (res matches Some(o) && post_log_result(o, rotation_active, header_view(service_header), body@, Seq::empty())),
        valid_utf8(body@) ==> match log_timestamp_text(secs, nanos) {
            None => res is None,
            Some(t) => res matches Some(o) && post_log_result(o, rotation_active, header_view(service_header), body@, t),
        },
        res is None <==> (valid_utf8(body@) && !chrono_accepts(secs, nanos)),
{
    let entity = service_name(service_header);
    match utf8_to_string(body) {
        None => Some(PostLogOutcome {
            reply: Reply { status: STATUS_INTERNAL_ERROR, body: ReplyBody::Text(String::from_str(MSG_CANNOT_STRINGIFY)) },
            dispatch: Dispatch::Nothing,
        }),
        Some(data) => match log_timestamp(secs, nanos) {
            None => None,
            Some(timestamp) => {
                let event = LogEvent { timestamp, entity, data };
                let dispatch = if rotation_active { Dispatch::Hold(event) } else { Dispatch::Publish(event) };
                Some(PostLogOutcome { reply: empty_ok(), dispatch })
            },
        },
    }
}

/// A header value reads as text exactly when every byte is a tab or lies
/// between 32 and 126, and then as those bytes, one character each.
pub proof fn lemma_header_text(bytes: Seq<u8>)
    ensures
        header_text(bytes) is Some <==> (forall|i: int| 0 <= i < bytes.len() ==> (#[trigger] bytes[i] == 9 || (32 <= bytes[i] && bytes[i] <= 126))),
        header_text(bytes) matches Some(t) ==> t.len() == bytes.len() && forall|i: int| 0 <= i < bytes.len() ==> t[i] as u32 == #[trigger] bytes[i] as u32,
{
}

/// A posted body that is not UTF-8 is answered with status 500 and dropped;
/// an accepted record keeps the whole body as its text (its UTF-8 encoding is
/// exactly the posted bytes), carries the given time stamp and the header's
/// service name, and is held back exactly when a rotation is in progress,
/// published otherwise.
pub proof fn lemma_accepted_record_keeps_body(
    o: PostLogOutcome,
    rotation_active: bool,
    header: Option<Seq<u8>>,
    body: Seq<u8>,
    timestamp: Seq<char>,
)
    requires
        valid_utf8(body),
        post_log_result(o, rotation_active, header, body, timestamp),
    ensures
        dispatched(o.dispatch) matches Some(e) && encode_utf8(e.data@) == body,
        dispatched(o.dispatch) matches Some(e) && e.timestamp@ == timestamp && e.entity@ == service_name_of(header),
        o.dispatch is Hold <==> rotation_active,
        o.dispatch is Publish <==> !rotation_active,
        o.reply.status == 200 && o.reply.body is Empty,
{
    vstd::utf8::decode_utf8_encode_utf8(body);
}

/// A body that is not UTF-8 text is answered with status 500 and the record
/// is dropped.
pub proof fn lemma_unreadable_body_dropped(
    o: PostLogOutcome,
    rotation_active: bool,
    header: Option<Seq<u8>>,
    body: Seq<u8>,
    timestamp: Seq<char>,
)
    requires
        !valid_utf8(body),
        post_log_result(o, rotation_active, header, body, timestamp),
    ensures
        o.dispatch is Nothing,
        o.reply.status == 500,
        o.reply.body matches ReplyBody::Text(t) && t@ == "Cannot stringify body"@,
{
}

/// A record is named after its `Service` header character for character
/// when every byte of the header is visible ASCII or a tab, and "Unknown
/// Service" when the header is missing or holds any other byte.
pub proof fn lemma_service_name_is_header(h: Seq<u8>)
    ensures
        service_name_of(None) == UNKNOWN_SERVICE@,
        (forall|i: int| 0 <= i < h.len() ==> visible_header_byte(#[trigger] h[i])) ==> {
            &&& service_name_of(Some(h)).len() == h.len()
            &&& forall|i: int| 0 <= i < h.len() ==> service_name_of(Some(h))[i] as u32 == h[i] as u32
        },
        (exists|i: int| 0 <= i < h.len() && !visible_header_byte(#[trigger] h[i])) ==> service_name_of(Some(h)) == UNKNOWN_SERVICE@,
{
}

} // verus!
