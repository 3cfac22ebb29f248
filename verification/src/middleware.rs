//! Layers around the request handlers: one that logs each request and its
//! outcome, and one that lists the trusted origins.

use vstd::prelude::*;
use vstd::string::StringExecFns;
use crate::config::{distinct_views, string_views};

verus! {

/// A layer that logs every request and its outcome around `inner`.
pub struct Logger<S> {
    inner: S,
}

impl<S> Logger<S> {
    /// The layer around `inner`.
    pub closed spec fn wrapped(&self) -> S {
        self.inner
    }

    /// Puts the logging layer around `inner`.
    pub fn new(inner: S) -> (res: Self)
        ensures
            res.wrapped() == inner,
    {
        Logger { inner }
    }

    /// The handler the layer wraps.
    pub fn inner(&self) -> (res: &S)
        ensures
            *res == self.wrapped(),
    {
        &self.inner
    }
}

/// The line logged when a request arrives: `<now> Request: <method> <uri> <version>`.
pub open spec fn request_line(now: Seq<char>, method: Seq<char>, uri: Seq<char>, version: Seq<char>) -> Seq<char> {
    now + " Request: "@ + method + " "@ + uri + " "@ + version
}

/// The line logged when a request was answered: `<now> Response: <status>`.
pub open spec fn response_line(now: Seq<char>, status: Seq<char>) -> Seq<char> {
    now + " Response: "@ + status
}

/// The line logged when a request failed: `<now> Error: <error>`.
pub open spec fn error_line(now: Seq<char>, error: Seq<char>) -> Seq<char> {
    now + " Error: "@ + error
}

/// Writes the line logged when a request arrives.
pub fn request_log_line(now: &str, method: &str, uri: &str, version: &str) -> (line: String)
    ensures
        line@ == request_line(now@, method@, uri@, version@),
{
    let mut line = String::from_str(now);
    line.append(" Request: ");
    line.append(method);
    line.append(" ");
    line.append(uri);
    line.append(" ");
    line.append(version);
    line
}

/// Writes the line logged when a request was answered.
pub fn response_log_line(now: &str, status: &str) -> (line: String)
    ensures
        line@ == response_line(now@, status@),
{
    let mut line = String::from_str(now);
    line.append(" Response: ");
    line.append(status);
    line
}

/// Writes the line logged when a request failed.
pub fn error_log_line(now: &str, error: &str) -> (line: String)
    ensures
        line@ == error_line(now@, error@),
{
    let mut line = String::from_str(now);
    line.append(" Error: ");
    line.append(error);
    line
}

/// A layer around `inner` that knows the client's address and the trusted
/// origins, and logs them for each request.
pub struct OriginValidation<S> {
    inner: S,
    client_ip: String,
    trusted_origins: Vec<String>,
}

impl<S> OriginValidation<S> {
    pub closed spec fn wrapped(&self) -> S {
        self.inner
    }

    pub closed spec fn client(&self) -> Seq<char> {
        self.client_ip@
    }

    /// The trusted origins; none occurs twice.
    pub closed spec fn origins(&self) -> Seq<String> {
        self.trusted_origins@
    }

    /// Puts the layer around `inner` for a client at `client_ip`, with a set
    /// of trusted origins.
    pub fn new(inner: S, client_ip: String, trusted_origins: Vec<String>) -> (res: Self)
        requires
            distinct_views(trusted_origins@),
        ensures
            res.wrapped() == inner,
            res.client() == client_ip@,
            res.origins() == trusted_origins@,
    {
        OriginValidation { inner, client_ip, trusted_origins }
    }

    /// The handler the layer wraps.
    pub fn inner(&self) -> (res: &S)
        ensures
            *res == self.wrapped(),
    {
        &self.inner
    }

    /// The lines the layer logs for a request: each trusted origin, then the
    /// client's address.
    pub fn log_lines(&self) -> (lines: Vec<String>)
        ensures
            string_views(lines@) == string_views(self.origins()).push(self.client()),
    {
        let mut lines: Vec<String> = Vec::new();
        let n = self.trusted_origins.len();
        for i in 0..n
            invariant
                n == self.origins().len(),
                string_views(lines@) == string_views(self.origins()).take(i as int),
        {
            let ghost before = lines@;
            let origin = self.trusted_origins[i].clone();
            lines.push(origin);
            assert(before.len() == string_views(before).len());
            assert(string_views(lines@)[i as int] == lines@[i as int]@);
            assert(string_views(self.origins())[i as int] == self.origins()[i as int]@);
            assert(string_views(lines@) =~= string_views(self.origins()).take(i + 1));
        }
        assert(string_views(self.origins()).take(n as int) =~= string_views(self.origins()));
        lines.push(self.client_ip.clone());
        assert(string_views(lines@) =~= string_views(self.origins()).push(self.client()));
        lines
    }
}

} // verus!
