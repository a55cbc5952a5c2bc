//! Requests, responses and header lists, with header names compared
//! without regard to ASCII case.

use vstd::prelude::*;

verus! {

/// The request methods that the service tells apart.
#[derive(Clone, Copy, Debug, PartialEq, Eq, Structural)]
pub enum Method {
    Get,
    Head,
    Post,
    Put,
    Delete,
    Patch,
    Options,
    Trace,
    Connect,
}

/// The response statuses that the service emits.
#[derive(Clone, Copy, Debug, PartialEq, Eq, Structural)]
pub enum Status {
    Success,
    BadRequest,
    Unauthorized,
    NotFound,
    UnprocessableEntity,
    InternalServerError,
}

impl Status {
    pub open spec fn spec_code(self) -> u16 {
        match self {
            Status::Success => 200,
            Status::BadRequest => 400,
            Status::Unauthorized => 401,
            Status::NotFound => 404,
            Status::UnprocessableEntity => 422,
            Status::InternalServerError => 500,
        }
    }

    /// The numeric status code.
    pub fn code(&self) -> (r: u16)
        ensures
            r == self.spec_code(),
    {
        match self {
            Status::Success => 200,
            Status::BadRequest => 400,
            Status::Unauthorized => 401,
            Status::NotFound => 404,
            Status::UnprocessableEntity => 422,
            Status::InternalServerError => 500,
        }
    }
}

/// The media types of the bodies that the service emits.
#[derive(Clone, Copy, Debug, PartialEq, Eq, Structural)]
pub enum ContentType {
    Plain,
    Svg,
}

impl ContentType {
    pub open spec fn spec_text(self) -> Seq<char> {
        match self {
            ContentType::Plain => "text/plain; charset=utf-8"@,
            ContentType::Svg => "image/svg+xml"@,
        }
    }

    /// The media type as it is written in a `Content-Type` header.
    pub fn as_str(&self) -> (r: &'static str)
        ensures
            r@ == self.spec_text(),
    {
        match self {
            ContentType::Plain => "text/plain; charset=utf-8",
            ContentType::Svg => "image/svg+xml",
        }
    }
}

/// One header line: a name and a value.
#[derive(Clone, Debug)]
pub struct Header {
    pub name: String,
    pub value: String,
}

/// A header list as pairs of name and value.
pub type Headers = Seq<(Seq<char>, Seq<char>)>;

pub open spec fn header_views(hs: Seq<Header>) -> Headers {
    hs.map_values(|h: Header| (h.name@, h.value@))
}

/// The code of `c` with ASCII upper case letters mapped to lower case.
pub open spec fn folded_code(c: char) -> u32 {
    if 65 <= c as u32 && c as u32 <= 90 {
        (c as u32 + 32) as u32
    } else {
        c as u32
    }
}

/// Two characters are equal up to ASCII case.
pub open spec fn char_eq_ignore_case(a: char, b: char) -> bool {
    folded_code(a) == folded_code(b)
}

/// Two header names are equal up to ASCII case.
pub open spec fn name_eq(a: Seq<char>, b: Seq<char>) -> bool {
    &&& a.len() == b.len()
    &&& forall|i: int| 0 <= i < a.len() ==> #[trigger] char_eq_ignore_case(a[i], b[i])
}

/// The value of the first header of `hs` whose name matches `name`.
pub open spec fn lookup(hs: Headers, name: Seq<char>) -> Option<Seq<char>>
    decreases hs.len(),
{
    if hs.len() == 0 {
        None
    } else {
        match lookup(hs.drop_last(), name) {
            Some(v) => Some(v),
            None => if name_eq(hs.last().0, name) {
                Some(hs.last().1)
            } else {
                None
            },
        }
    }
}

/// `hs` without the headers whose name matches `name`, in their order.
pub open spec fn without(hs: Headers, name: Seq<char>) -> Headers
    decreases hs.len(),
{
    if hs.len() == 0 {
        hs
    } else if name_eq(hs.last().0, name) {
        without(hs.drop_last(), name)
    } else {
        without(hs.drop_last(), name).push(hs.last())
    }
}

/// `hs` with every header named `name` replaced by one header `name: value`.
pub open spec fn set_header_spec(hs: Headers, name: Seq<char>, value: Seq<char>) -> Headers {
    without(hs, name).push((name, value))
}

/// Compares two characters up to ASCII case.
pub fn chars_eq_ignore_case(a: char, b: char) -> (r: bool)
    ensures
        r == char_eq_ignore_case(a, b),
{
    let x = a as u32;
    let y = b as u32;
    let fx = if 65 <= x && x <= 90 { x + 32 } else { x };
    let fy = if 65 <= y && y <= 90 { y + 32 } else { y };
    fx == fy
}

/// Compares two header names up to ASCII case.
pub fn names_equal(a: &str, b: &str) -> (r: bool)
    ensures
        r == name_eq(a@, b@),
{
    let n = a.unicode_len();
    if n != b.unicode_len() {
        return false;
    }
    let mut i: usize = 0;
    while i < n
        invariant
            n == a@.len(),
            n == b@.len(),
            i <= n,
            forall|j: int| 0 <= j < i ==> #[trigger] char_eq_ignore_case(a@[j], b@[j]),
        decreases n - i,
    {
        if !chars_eq_ignore_case(a.get_char(i), b.get_char(i)) {
            return false;
        }
        i = i + 1;
    }
    true
}

/// The value of the first header in `hs` whose name matches `name`.
pub fn find_header(hs: &Vec<Header>, name: &str) -> (r: Option<String>)
    ensures
        match r {
            Some(v) => lookup(header_views(hs@), name@) == Some(v@),
            None => lookup(header_views(hs@), name@) is None,
        },
{
    let ghost all = header_views(hs@);
    let mut found: Option<String> = None;
    let mut i: usize = 0;
    while i < hs.len()
        invariant
            all == header_views(hs@),
            i <= hs@.len(),
            match found {
                Some(v) => lookup(all.subrange(0, i as int), name@) == Some(v@),
                None => lookup(all.subrange(0, i as int), name@) is None,
            },
        decreases hs.len() - i,
    {
        assert(all.subrange(0, i + 1).drop_last() =~= all.subrange(0, i as int));
        if found.is_none() && names_equal(hs[i].name.as_str(), name) {
            found = Some(hs[i].value.clone());
        }
        i = i + 1;
    }
    assert(all.subrange(0, hs@.len() as int) =~= all);
    found
}

/// `hs` without the headers whose name matches `name`.
pub fn remove_headers(hs: &Vec<Header>, name: &str) -> (r: Vec<Header>)
    ensures
        header_views(r@) == without(header_views(hs@), name@),
{
    let ghost all = header_views(hs@);
    let mut out: Vec<Header> = Vec::new();
    let mut i: usize = 0;
    while i < hs.len()
        invariant
            all == header_views(hs@),
            i <= hs@.len(),
            header_views(out@) == without(all.subrange(0, i as int), name@),
        decreases hs.len() - i,
    {
        assert(all.subrange(0, i + 1).drop_last() =~= all.subrange(0, i as int));
        if !names_equal(hs[i].name.as_str(), name) {
            let h = Header { name: hs[i].name.clone(), value: hs[i].value.clone() };
            let ghost before = out@;
            out.push(h);
            assert(header_views(out@) =~= header_views(before).push(all[i as int]));
        }
        i = i + 1;
    }
    assert(all.subrange(0, hs@.len() as int) =~= all);
    out
}

/// Looking a name up in `without(hs, n)` finds nothing for a name that
/// matches `n`, and what `hs` gives for any other name.
pub proof fn lemma_lookup_without(hs: Headers, n: Seq<char>, m: Seq<char>)
    ensures
        lookup(without(hs, n), m) == (if name_eq(m, n) {
            None
        } else {
            lookup(hs, m)
        }),
    decreases hs.len(),
{
    if hs.len() > 0 {
        let rest = hs.drop_last();
        let e = hs.last();
        lemma_lookup_without(rest, n, m);
        if !name_eq(e.0, n) {
            let w = without(rest, n);
            assert(w.push(e).drop_last() =~= w);
            if name_eq(m, n) && name_eq(e.0, m) {
                assert forall|i: int| 0 <= i < e.0.len() implies #[trigger] char_eq_ignore_case(
                    e.0[i],
                    n[i],
                ) by {
                    assert(char_eq_ignore_case(e.0[i], m[i]));
                    assert(char_eq_ignore_case(m[i], n[i]));
                }
            }
        } else if !name_eq(m, n) && name_eq(e.0, m) {
            assert forall|i: int| 0 <= i < m.len() implies #[trigger] char_eq_ignore_case(
                m[i],
                n[i],
            ) by {
                assert(char_eq_ignore_case(e.0[i], m[i]));
                assert(char_eq_ignore_case(e.0[i], n[i]));
            }
        }
    }
}

/// After `name: value` is set, looking up `name` gives `value`, and looking
/// up a name that does not match it gives what it gave before.
pub proof fn lemma_lookup_set(hs: Headers, n: Seq<char>, v: Seq<char>, m: Seq<char>)
    ensures
        lookup(set_header_spec(hs, n, v), m) == (if name_eq(n, m) {
            Some(v)
        } else {
            lookup(hs, m)
        }),
{
    let w = without(hs, n);
    lemma_lookup_without(hs, n, m);
    assert(w.push((n, v)).drop_last() =~= w);
    if name_eq(n, m) {
        assert forall|i: int| 0 <= i < m.len() implies #[trigger] char_eq_ignore_case(m[i], n[i]) by {
            assert(char_eq_ignore_case(n[i], m[i]));
        }
    } else if name_eq(m, n) {
        assert forall|i: int| 0 <= i < n.len() implies #[trigger] char_eq_ignore_case(n[i], m[i]) by {
            assert(char_eq_ignore_case(m[i], n[i]));
        }
    }
}

/// An inbound request, as the service sees it: its method, its path, the
/// `url` query parameter (decoded, if present) and its header lines.
#[derive(Clone, Debug)]
pub struct Request {
    pub method: Method,
    pub path: String,
    pub url: Option<String>,
    pub headers: Vec<Header>,
}

impl Request {
    /// A request with no query parameter and no header.
    pub fn new(method: Method, path: &str) -> (r: Request)
        ensures
            r.method == method,
            r.path@ == path@,
            r.url is None,
            r.headers@.len() == 0,
    {
        Request { method, path: path.to_string(), url: None, headers: Vec::new() }
    }

    /// The same request with `url` as its `url` query parameter.
    pub fn with_url(self, url: &str) -> (r: Request)
        ensures
            r.method == self.method,
            r.path@ == self.path@,
            r.url matches Some(u) && u@ == url@,
            header_views(r.headers@) == header_views(self.headers@),
    {
        Request { url: Some(url.to_string()), ..self }
    }

    /// The same request with one more header line.
    pub fn with_header(self, name: &str, value: &str) -> (r: Request)
        ensures
            r.method == self.method,
            r.path@ == self.path@,
            r.url == self.url,
            header_views(r.headers@) == header_views(self.headers@).push((name@, value@)),
    {
        let mut headers = self.headers;
        headers.push(Header { name: name.to_string(), value: value.to_string() });
        Request { headers, ..self }
    }

    /// The value of the first header line named `name`.
    pub fn header(&self, name: &str) -> (r: Option<String>)
        ensures
            match r {
                Some(v) => lookup(header_views(self.headers@), name@) == Some(v@),
                None => lookup(header_views(self.headers@), name@) is None,
            },
    {
        find_header(&self.headers, name)
    }
}

/// What a request holds, over mathematical values.
pub struct RequestView {
    pub method: Method,
    pub path: Seq<char>,
    pub url: Option<Seq<char>>,
    pub headers: Headers,
}

impl View for Request {
    type V = RequestView;

    open spec fn view(&self) -> RequestView {
        RequestView {
            method: self.method,
            path: self.path@,
            url: match self.url {
                Some(u) => Some(u@),
                None => None,
            },
            headers: header_views(self.headers@),
        }
    }
}

/// What a response holds, over mathematical values.
pub struct ResponseView {
    pub status: Status,
    pub content_type: Option<ContentType>,
    pub headers: Headers,
    pub body: Seq<char>,
}

/// A response with the given status, no header and an empty body.
pub open spec fn empty_view(status: Status) -> ResponseView {
    ResponseView { status, content_type: None, headers: seq![], body: seq![] }
}

impl View for Response {
    type V = ResponseView;

    open spec fn view(&self) -> ResponseView {
        ResponseView {
            status: self.status,
            content_type: self.content_type,
            headers: header_views(self.headers@),
            body: self.body@,
        }
    }
}

/// An outbound response: a status, the media type of the body if there is
/// one, header lines and a body.
#[derive(Clone, Debug)]
pub struct Response {
    pub status: Status,
    pub content_type: Option<ContentType>,
    pub headers: Vec<Header>,
    pub body: String,
}

impl Response {
    /// A response with the given status, no header and an empty body.
    pub fn empty(status: Status) -> (r: Response)
        ensures
            r.status == status,
            r.content_type is None,
            r.headers@.len() == 0,
            r.body@.len() == 0,
    {
        Response { status, content_type: None, headers: Vec::new(), body: String::new() }
    }

    /// A response with status 200 and the given body.
    pub fn with_body(content_type: ContentType, body: String) -> (r: Response)
        ensures
            r.status == Status::Success,
            r.content_type == Some(content_type),
            r.headers@.len() == 0,
            r.body == body,
    {
        Response { status: Status::Success, content_type: Some(content_type), headers: Vec::new(), body }
    }

    pub fn status(&self) -> (r: Status)
        ensures
            r == self.status,
    {
        self.status
    }

    pub fn body(&self) -> (r: &str)
        ensures
            r@ == self.body@,
    {
        self.body.as_str()
    }

    /// The value of the first header line named `name`.
    pub fn header(&self, name: &str) -> (r: Option<String>)
        ensures
            match r {
                Some(v) => lookup(header_views(self.headers@), name@) == Some(v@),
                None => lookup(header_views(self.headers@), name@) is None,
            },
    {
        find_header(&self.headers, name)
    }

    /// Sets the header `name` to `value`, replacing every header line of
    /// that name (up to ASCII case); the rest of the response is kept.
    pub fn set_header(&mut self, name: &str, value: &str)
        ensures
            header_views(final(self).headers@) == set_header_spec(
                header_views(old(self).headers@),
                name@,
                value@,
            ),
            final(self).status == old(self).status,
            final(self).content_type == old(self).content_type,
            final(self).body == old(self).body,
    {
        let mut kept = remove_headers(&self.headers, name);
        let ghost before = kept@;
        kept.push(Header { name: name.to_string(), value: value.to_string() });
        assert(header_views(kept@) =~= header_views(before).push((name@, value@)));
        self.headers = kept;
    }
}

} // verus!
