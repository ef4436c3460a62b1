//! HTTP exchanges as plain values: what the engine hands to a transport and
//! what it takes back.

use vstd::prelude::*;
use crate::text::{eq_ignore_ascii_case, same_ignoring_ascii_case};

verus! {

/// The seconds that a transport may spend on one request before it gives the
/// request up as failed.
pub const REQUEST_TIMEOUT_SECONDS: u64 = 30;

#[derive(Debug, Clone, Copy, PartialEq, Eq, Structural)]
pub enum Method {
    Get,
    Post,
}

/// One header line.
#[derive(Debug, PartialEq, Eq)]
pub struct Header {
    pub name: String,
    pub value: String,
}

/// The mathematical value of a [`Header`].
pub struct HeaderView {
    pub name: Seq<char>,
    pub value: Seq<char>,
}

impl View for Header {
    type V = HeaderView;

    open spec fn view(&self) -> HeaderView {
        HeaderView { name: self.name@, value: self.value@ }
    }
}

impl DeepView for Header {
    type V = HeaderView;

    open spec fn deep_view(&self) -> HeaderView {
        self@
    }
}

/// A request for the transport to send. The body, where there is one, is JSON
/// text.
#[derive(Debug, PartialEq, Eq)]
pub struct HttpRequest {
    pub method: Method,
    pub url: String,
    pub headers: Vec<Header>,
    pub body: Option<String>,
}

/// The mathematical value of an [`HttpRequest`].
pub struct HttpRequestView {
    pub method: Method,
    pub url: Seq<char>,
    pub headers: Seq<HeaderView>,
    pub body: Option<Seq<char>>,
}

impl View for HttpRequest {
    type V = HttpRequestView;

    open spec fn view(&self) -> HttpRequestView {
        HttpRequestView {
            method: self.method,
            url: self.url@,
            headers: self.headers.deep_view(),
            body: self.body.deep_view(),
        }
    }
}

impl DeepView for HttpRequest {
    type V = HttpRequestView;

    open spec fn deep_view(&self) -> HttpRequestView {
        self@
    }
}

/// What came back for a request: the status, the header lines in the order
/// they were received, and the body as bytes.
#[derive(Debug, PartialEq, Eq)]
pub struct HttpResponse {
    pub status: u16,
    pub headers: Vec<Header>,
    pub body: Vec<u8>,
}

/// The mathematical value of an [`HttpResponse`].
pub struct HttpResponseView {
    pub status: u16,
    pub headers: Seq<HeaderView>,
    pub body: Seq<u8>,
}

impl View for HttpResponse {
    type V = HttpResponseView;

    open spec fn view(&self) -> HttpResponseView {
        HttpResponseView {
            status: self.status,
            headers: self.headers.deep_view(),
            body: self.body@,
        }
    }
}

impl DeepView for HttpResponse {
    type V = HttpResponseView;

    open spec fn deep_view(&self) -> HttpResponseView {
        self@
    }
}

/// A status in the success range, 200 to 299.
pub open spec fn success_status(status: u16) -> bool {
    200 <= status <= 299
}

pub fn is_success(status: u16) -> (r: bool)
    ensures
        r == success_status(status),
{
    200 <= status && status <= 299
}

/// The value of the first header named `name`. Header names are compared
/// without regard to the case of ASCII letters.
pub open spec fn header_value(headers: Seq<HeaderView>, name: Seq<char>) -> Option<Seq<char>>
    decreases headers.len(),
{
    if headers.len() == 0 {
        None
    } else if eq_ignore_ascii_case(headers[0].name, name) {
        Some(headers[0].value)
    } else {
        header_value(headers.drop_first(), name)
    }
}

/// Whether some header line carries the name `name`.
pub open spec fn has_header(headers: Seq<HeaderView>, name: Seq<char>) -> bool {
    exists|i: int| 0 <= i < headers.len() && eq_ignore_ascii_case(#[trigger] headers[i].name, name)
}

/// Looks a header up by name; see [`header_value`].
pub fn find_header<'a>(headers: &'a Vec<Header>, name: &str) -> (r: Option<&'a String>)
    ensures
        r.deep_view() == header_value(headers.deep_view(), name@),
{
    let ghost all = headers.deep_view();
    let mut i: usize = 0;
    assert(all.skip(0) =~= all);
    while i < headers.len()
        invariant
            i <= headers.len(),
            all == headers.deep_view(),
            header_value(all, name@) == header_value(all.skip(i as int), name@),
        decreases headers.len() - i,
    {
        let ghost rest = all.skip(i as int);
        if same_ignoring_ascii_case(headers[i].name.as_str(), name) {
            return Some(&headers[i].value);
        }
        assert(rest.drop_first() =~= all.skip(i + 1));
        i += 1;
    }
    None
}

/// Whether line `i` is the first that carries the name `name`.
pub open spec fn first_named(headers: Seq<HeaderView>, name: Seq<char>, i: int) -> bool {
    &&& 0 <= i < headers.len()
    &&& eq_ignore_ascii_case(headers[i].name, name)
    &&& forall|k: int| 0 <= k < i ==> !eq_ignore_ascii_case(#[trigger] headers[k].name, name)
}

/// A header is found exactly when some line carries its name.
pub proof fn lemma_header_found_iff_present(headers: Seq<HeaderView>, name: Seq<char>)
    ensures
        header_value(headers, name) is Some <==> has_header(headers, name),
    decreases headers.len(),
{
    if headers.len() > 0 && !eq_ignore_ascii_case(headers[0].name, name) {
        let rest = headers.drop_first();
        lemma_header_found_iff_present(rest, name);
        if has_header(headers, name) {
            let i = choose|i: int|
                0 <= i < headers.len() && eq_ignore_ascii_case(#[trigger] headers[i].name, name);
            assert(rest[i - 1] == headers[i]);
        }
    }
}

/// The value that is found is that of the first line that carries the name.
pub proof fn lemma_header_value_is_first(headers: Seq<HeaderView>, name: Seq<char>, i: int)
    requires
        first_named(headers, name, i),
    ensures
        header_value(headers, name) == Some(headers[i].value),
    decreases headers.len(),
{
    if i > 0 {
        let rest = headers.drop_first();
        assert forall|k: int| 0 <= k < i - 1 implies !eq_ignore_ascii_case(
            #[trigger] rest[k].name,
            name,
        ) by {
            assert(rest[k] == headers[k + 1]);
        }
        lemma_header_value_is_first(rest, name, i - 1);
    }
}

} // verus!
