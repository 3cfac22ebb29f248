//! The clock, and the texts the service writes times in.

use vstd::prelude::*;
use std::fmt::Write;

verus! {

/// Whether `chrono::DateTime::from_timestamp` accepts the time `secs`
/// seconds and `nanos` nanoseconds after the Unix epoch.
pub uninterp spec fn chrono_accepts(secs: i64, nanos: u32) -> bool;

/// What `chrono` writes for the UTC time `secs` seconds and `nanos`
/// nanoseconds after the Unix epoch in the strftime format `fmt`; none where
/// `from_timestamp` refuses the time or the format cannot be written.
pub uninterp spec fn chrono_format_text(secs: i64, nanos: u32, fmt: Seq<char>) -> Option<Seq<char>>;

/// Writes a UTC time in a strftime format (`DateTime::from_timestamp`, then
/// `naive_utc().format(fmt)` written into a string).
/// Trusted: the result is a function of the arguments alone, named
/// `chrono_format_text`; there is a text only where `from_timestamp` accepts
/// the time, and for the log time stamp format, whose items (`%Y`, `%m`,
/// `%d`, `%H`, `%M`, `%S` and literal text) chrono writes for every date and
/// time it holds, there is one wherever it accepts the time.
#[verifier::external_body]
fn format_utc(secs: i64, nanos: u32, fmt: &str) -> (res: Option<String>)
    ensures
        match res {
            Some(s) => chrono_format_text(secs, nanos, fmt@) == Some(s@),
            None => chrono_format_text(secs, nanos, fmt@) is None,
        },
        res is Some ==> chrono_accepts(secs, nanos),
        chrono_accepts(secs, nanos) && fmt@ == LOG_TIMESTAMP_FORMAT@ ==> res is Some,
{
    match chrono::DateTime::from_timestamp(secs, nanos) {
        Some(t) => {
            let mut text = String::new();
            match write!(text, "{}", t.naive_utc().format(fmt)) {
                Ok(()) => Some(text),
                Err(_) => None,
            }
        },
        None => None,
    }
}

/// The format in which log records are stamped: `YYYY-MM-DD HH:MM:SS`.
pub const LOG_TIMESTAMP_FORMAT: &'static str = "%Y-%m-%d %H:%M:%S";

/// The time stamp of a log record received at the given UTC time.
pub open spec fn log_timestamp_text(secs: i64, nanos: u32) -> Option<Seq<char>> {
    chrono_format_text(secs, nanos, LOG_TIMESTAMP_FORMAT@)
}

/// Writes a time as log records are stamped: in UTC, `YYYY-MM-DD HH:MM:SS`.
/// There is a text for every time chrono accepts.
pub fn log_timestamp(secs: i64, nanos: u32) -> (res: Option<String>)
    ensures
        match res {
            Some(s) => log_timestamp_text(secs, nanos) == Some(s@),
            None => log_timestamp_text(secs, nanos) is None,
        },
        res is Some <==> chrono_accepts(secs, nanos),
{
    format_utc(secs, nanos, LOG_TIMESTAMP_FORMAT)
}

/// What `chrono` writes for the UTC time `secs` seconds and `nanos`
/// nanoseconds after the Unix epoch in RFC 3339 form; none where
/// `chrono::DateTime::from_timestamp` refuses the time.
pub uninterp spec fn rfc3339_text(secs: i64, nanos: u32) -> Option<Seq<char>>;

/// Writes a time in RFC 3339 form (`DateTime::from_timestamp`, then
/// `to_rfc3339`).
/// Trusted: the result is a function of the arguments alone, named
/// `rfc3339_text`; `to_rfc3339` always gives a text, so there is one exactly
/// where `from_timestamp` accepts the time.
#[verifier::external_body]
fn format_rfc3339(secs: i64, nanos: u32) -> (res: Option<String>)
    ensures
        match res {
            Some(s) => rfc3339_text(secs, nanos) == Some(s@),
            None => rfc3339_text(secs, nanos) is None,
        },
        res is Some <==> chrono_accepts(secs, nanos),
{
    match chrono::DateTime::from_timestamp(secs, nanos) {
        Some(t) => Some(t.to_rfc3339()),
        None => None,
    }
}

/// The time of a request as the request log writes it: RFC 3339 form, for
/// every time chrono accepts.
pub fn request_log_time(secs: i64, nanos: u32) -> (res: Option<String>)
    ensures
        match res {
            Some(s) => rfc3339_text(secs, nanos) == Some(s@),
            None => rfc3339_text(secs, nanos) is None,
        },
        res is Some <==> chrono_accepts(secs, nanos),
{
    format_rfc3339(secs, nanos)
}

} // verus!
