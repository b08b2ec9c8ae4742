//! What came back from one HTTP request, as plain values.

use crate::text::{ascii_lower, chars_of, eq_ignore_ascii_case, equals_ignore_ascii_case};
use vstd::prelude::*;

verus! {

/// How long one request may take, in seconds, before it counts as failed.
pub const REQUEST_TIMEOUT_SECS: u64 = 5;

/// The headers of a response as name and value pairs, in the order received.
pub type HeaderSeq = Seq<(Seq<char>, Seq<char>)>;

/// The value of the first header of `headers` whose name is `name`, letter
/// case aside.
pub open spec fn header_value(headers: HeaderSeq, name: Seq<char>) -> Option<Seq<char>>
    decreases headers.len(),
{
    if headers.len() == 0 {
        None
    } else if eq_ignore_ascii_case(headers[0].0, name) {
        Some(headers[0].1)
    } else {
        header_value(headers.drop_first(), name)
    }
}

/// An HTTP response of any status.
#[derive(Debug)]
pub struct Response {
    /// The status code.
    pub status: u16,
    /// Name and value of each header, in the order received.
    pub headers: Vec<(String, String)>,
    /// The bytes read of the body, or why reading it failed. It is looked at
    /// only where a body rule is set.
    pub body: Result<Vec<u8>, String>,
}

/// What a response holds, as sequences.
pub struct ResponseView {
    pub status: u16,
    pub headers: HeaderSeq,
    pub body: Result<Seq<u8>, Seq<char>>,
}

/// What was read of a body, as sequences.
pub open spec fn body_view(body: Result<Vec<u8>, String>) -> Result<Seq<u8>, Seq<char>> {
    match body {
        Ok(bytes) => Ok(bytes@),
        Err(reason) => Err(reason@),
    }
}

impl View for Response {
    type V = ResponseView;

    open spec fn view(&self) -> ResponseView {
        ResponseView {
            status: self.status,
            headers: self.headers.deep_view(),
            body: body_view(self.body),
        }
    }
}

/// What one request gave: a response, or the reason why none was obtained
/// (no connection, no name, no TLS, time run out, bytes that are no HTTP).
#[derive(Debug)]
pub enum Fetched {
    Response(Response),
    Failed(String),
}

/// What one request gave, as sequences.
pub enum FetchedView {
    Response(ResponseView),
    Failed(Seq<char>),
}

impl View for Fetched {
    type V = FetchedView;

    open spec fn view(&self) -> FetchedView {
        match self {
            Fetched::Response(resp) => FetchedView::Response(resp@),
            Fetched::Failed(reason) => FetchedView::Failed(reason@),
        }
    }
}

impl Response {
    /// The value of header `name`, if the response has one. Names are matched
    /// without regard to the case of ASCII letters, and the first match counts.
    pub fn header(&self, name: &str) -> (value: Option<&str>)
        ensures
            match value {
                Some(v) => header_value(self@.headers, name@) == Some(v@),
                None => header_value(self@.headers, name@) is None,
            },
    {
        let ghost all = self@.headers;
        let wanted = chars_of(name);
        let n: usize = self.headers.len();
        let mut i: usize = 0;
        assert(all.skip(0) =~= all);
        while i < n
            invariant
                n == self.headers@.len(),
                all == self@.headers,
                wanted@ == name@,
                i <= n,
                header_value(all, name@) == header_value(all.skip(i as int), name@),
            decreases n - i,
        {
            let entry = &self.headers[i];
            let entry_name = chars_of(entry.0.as_str());
            assert(all.skip(i as int).drop_first() =~= all.skip(i + 1));
            if equals_ignore_ascii_case(entry_name.as_slice(), wanted.as_slice()) {
                return Some(entry.1.as_str());
            }
            i += 1;
        }
        None
    }
}

/// A header is found under its name in any letter case: two names that are
/// equal but for the case of ASCII letters find the same value.
pub proof fn lemma_header_name_case(headers: HeaderSeq, a: Seq<char>, b: Seq<char>)
    requires
        eq_ignore_ascii_case(a, b),
    ensures
        header_value(headers, a) == header_value(headers, b),
    decreases headers.len(),
{
    if headers.len() > 0 {
        lemma_header_name_case(headers.drop_first(), a, b);
    }
}

/// A response without headers has no header of any name.
pub proof fn lemma_no_headers(name: Seq<char>)
    ensures
        header_value(Seq::empty(), name) is None,
{
}

} // verus!
