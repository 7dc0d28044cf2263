//! Requests and responses as plain values. A driver sends a request as it
//! is described here and describes the response that came back.

use crate::text::to_chars;
use vstd::prelude::*;

verus! {

/// The method of a request.
#[derive(Debug, Clone, Copy, PartialEq, Eq, Structural)]
pub enum Method {
    Get,
    Head,
    Post,
    Put,
}

/// The bytes of a body, where there is one.
pub open spec fn body_view(body: Option<Vec<u8>>) -> Option<Seq<u8>> {
    match body {
        Some(bytes) => Some(bytes@),
        None => None,
    }
}

/// A request to send: header fields in the order given, credentials for
/// basic authentication where the request carries them, and the body where
/// it has one.
#[derive(Debug, PartialEq, Eq)]
pub struct Request {
    pub method: Method,
    pub url: String,
    pub headers: Vec<(String, String)>,
    pub basic_auth: Option<(String, String)>,
    pub body: Option<Vec<u8>>,
}

/// A request as a plain value.
pub ghost struct RequestView {
    pub method: Method,
    pub url: Seq<char>,
    pub headers: Seq<(Seq<char>, Seq<char>)>,
    pub basic_auth: Option<(Seq<char>, Seq<char>)>,
    pub body: Option<Seq<u8>>,
}

impl View for Request {
    type V = RequestView;

    open spec fn view(&self) -> RequestView {
        RequestView {
            method: self.method,
            url: self.url@,
            headers: self.headers.deep_view(),
            basic_auth: self.basic_auth.deep_view(),
            body: body_view(self.body),
        }
    }
}

impl DeepView for Request {
    type V = RequestView;

    open spec fn deep_view(&self) -> RequestView {
        self@
    }
}

impl Request {
    /// A request that reads `url`, with credentials where given and with no
    /// header fields of its own.
    pub fn get(url: String, basic_auth: Option<(String, String)>) -> (res: Request)
        ensures
            res@ == (RequestView {
                method: Method::Get,
                url: url@,
                headers: Seq::empty(),
                basic_auth: basic_auth.deep_view(),
                body: None,
            }),
    {
        let headers: Vec<(String, String)> = Vec::new();
        assert(headers.deep_view() =~= Seq::empty());
        Request { method: Method::Get, url, headers, basic_auth, body: None }
    }
}

/// A response that came back: the status, the address that answered, the
/// header fields in the order received, and the body. The value of a header
/// field is `None` where it is not text.
#[derive(Debug, PartialEq, Eq)]
pub struct Response {
    pub status: u16,
    pub url: String,
    pub headers: Vec<(String, Option<String>)>,
    pub body: Vec<u8>,
}

/// A response as a plain value.
pub ghost struct ResponseView {
    pub status: u16,
    pub url: Seq<char>,
    pub headers: Seq<(Seq<char>, Option<Seq<char>>)>,
    pub body: Seq<u8>,
}

impl View for Response {
    type V = ResponseView;

    open spec fn view(&self) -> ResponseView {
        ResponseView {
            status: self.status,
            url: self.url@,
            headers: self.headers.deep_view(),
            body: self.body@,
        }
    }
}

impl DeepView for Response {
    type V = ResponseView;

    open spec fn deep_view(&self) -> ResponseView {
        self@
    }
}

/// A status of the success class, 200 to 299.
pub open spec fn is_success(status: u16) -> bool {
    200 <= status <= 299
}

/// `c` with an upper-case ASCII letter turned to lower case.
pub open spec fn ascii_lower(c: char) -> char {
    if 'A' <= c && c <= 'Z' {
        ((c as u8) + 32) as char
    } else {
        c
    }
}

/// Two names of header fields are the same where they differ at most in the
/// case of ASCII letters.
pub open spec fn same_name(a: Seq<char>, b: Seq<char>) -> bool {
    &&& a.len() == b.len()
    &&& forall|i: int| 0 <= i < a.len() ==> ascii_lower(#[trigger] a[i]) == ascii_lower(b[i])
}

/// The value of the first header field at or after `from` that is named
/// `name`.
pub open spec fn header_from(
    headers: Seq<(Seq<char>, Option<Seq<char>>)>,
    name: Seq<char>,
    from: int,
) -> Option<Option<Seq<char>>>
    decreases headers.len() - from,
{
    if from < 0 || from >= headers.len() {
        None
    } else if same_name(headers[from].0, name) {
        Some(headers[from].1)
    } else {
        header_from(headers, name, from + 1)
    }
}

/// The value of the first header field named `name`: `None` where there is
/// no such field, `Some(None)` where its value is not text.
pub open spec fn header_value(headers: Seq<(Seq<char>, Option<Seq<char>>)>, name: Seq<char>) -> Option<
    Option<Seq<char>>,
> {
    header_from(headers, name, 0)
}

fn lower(c: char) -> (res: char)
    ensures
        res == ascii_lower(c),
{
    if 'A' <= c && c <= 'Z' {
        ((c as u8) + 32) as char
    } else {
        c
    }
}

/// Whether two names of header fields are the same.
pub fn names_match(a: &str, b: &str) -> (res: bool)
    ensures
        res == same_name(a@, b@),
{
    let x = to_chars(a);
    let y = to_chars(b);
    if x.len() != y.len() {
        return false;
    }
    let mut i: usize = 0;
    while i < x.len()
        invariant
            i <= x.len(),
            x.len() == y.len(),
            x@ == a@,
            y@ == b@,
            forall|j: int| 0 <= j < i ==> ascii_lower(#[trigger] x@[j]) == ascii_lower(y@[j]),
        decreases x.len() - i,
    {
        if lower(x[i]) != lower(y[i]) {
            assert(ascii_lower(a@[i as int]) != ascii_lower(b@[i as int]));
            return false;
        }
        i = i + 1;
    }
    true
}

impl Response {
    /// Whether the status is of the success class.
    pub fn succeeded(&self) -> (res: bool)
        ensures
            res == is_success(self.status),
    {
        200 <= self.status && self.status <= 299
    }

    /// The position of the first header field named `name`: the field
    /// there has the name, and none before it has. `None` where no field
    /// has the name.
    pub fn header_position(&self, name: &str) -> (res: Option<usize>)
        ensures
            (match res {
                Some(i) => {
                    &&& i < self.headers.len()
                    &&& header_value(self@.headers, name@) == Some(self@.headers[i as int].1)
                    &&& same_name(self@.headers[i as int].0, name@)
                    &&& forall|j: int|
                        0 <= j < i ==> !same_name((#[trigger] self@.headers[j]).0, name@)
                },
                None => {
                    &&& header_value(self@.headers, name@) is None
                    &&& forall|j: int|
                        0 <= j < self@.headers.len() ==> !same_name(
                            (#[trigger] self@.headers[j]).0,
                            name@,
                        )
                },
            }),
    {
        let mut i: usize = 0;
        while i < self.headers.len()
            invariant
                i <= self.headers.len(),
                header_value(self@.headers, name@) == header_from(self@.headers, name@, i as int),
                forall|j: int| 0 <= j < i ==> !same_name((#[trigger] self@.headers[j]).0, name@),
            decreases self.headers.len() - i,
        {
            if names_match(self.headers[i].0.as_str(), name) {
                return Some(i);
            }
            i = i + 1;
        }
        None
    }
}

} // verus!
