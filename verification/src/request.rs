//! A request as a plain value: what is to be sent, before anything is
//! sent.

use vstd::prelude::*;

verus! {

/// The two methods that the diary uses.
#[derive(Clone, Copy, Debug, PartialEq, Eq, Structural)]
pub enum Method {
    Get,
    Post,
}

/// The value of a query parameter, before it is written into an address.
#[derive(Clone, Debug, PartialEq, Eq)]
pub enum QueryValue {
    Number(u64),
    Text(String),
    Flag(bool),
}

/// One query parameter.
#[derive(Clone, Debug, PartialEq, Eq)]
pub struct QueryParam {
    pub name: String,
    pub value: QueryValue,
}

/// One header.
#[derive(Clone, Debug, PartialEq, Eq)]
pub struct Header {
    pub name: String,
    pub value: String,
}

/// The body of the request that opens a session: the token, which goes
/// out as the one field `auth_token` of a JSON object.
#[derive(Clone, Debug, PartialEq, Eq)]
pub struct StudentAuth {
    pub auth_token: String,
}

/// One request to the service.
#[derive(Clone, Debug, PartialEq, Eq)]
pub struct Request {
    pub method: Method,
    pub url: String,
    /// The query parameters, in the order in which they are written
    pub query: Vec<QueryParam>,
    /// The headers of this request, beside those of every request
    pub headers: Vec<Header>,
    /// The time this request may take, in seconds, where it is not that
    /// of every request
    pub timeout_secs: Option<u64>,
    pub body: Option<StudentAuth>,
}

/// What every request of one client carries.
#[derive(Clone, Debug, PartialEq, Eq)]
pub struct ClientSettings {
    pub default_headers: Vec<Header>,
    /// The time a request may take, in seconds
    pub timeout_secs: u64,
}

/// A query value with its text as a sequence of characters.
pub enum QueryValueView {
    Number(u64),
    Text(Seq<char>),
    Flag(bool),
}

/// A request as the contracts speak of it: texts as sequences of
/// characters, parameters and headers as pairs.
pub struct RequestView {
    pub method: Method,
    pub url: Seq<char>,
    pub query: Seq<(Seq<char>, QueryValueView)>,
    pub headers: Seq<(Seq<char>, Seq<char>)>,
    pub timeout_secs: Option<u64>,
    pub body: Option<Seq<char>>,
}

/// The settings of a client as the contracts speak of them.
pub struct ClientSettingsView {
    pub default_headers: Seq<(Seq<char>, Seq<char>)>,
    pub timeout_secs: u64,
}

impl View for QueryValue {
    type V = QueryValueView;

    open spec fn view(&self) -> QueryValueView {
        match self {
            QueryValue::Number(n) => QueryValueView::Number(*n),
            QueryValue::Text(t) => QueryValueView::Text(t@),
            QueryValue::Flag(b) => QueryValueView::Flag(*b),
        }
    }
}

impl View for QueryParam {
    type V = (Seq<char>, QueryValueView);

    open spec fn view(&self) -> (Seq<char>, QueryValueView) {
        (self.name@, self.value@)
    }
}

impl View for Header {
    type V = (Seq<char>, Seq<char>);

    open spec fn view(&self) -> (Seq<char>, Seq<char>) {
        (self.name@, self.value@)
    }
}

/// The headers of a list, each as a pair of texts.
pub open spec fn headers_view(headers: Seq<Header>) -> Seq<(Seq<char>, Seq<char>)> {
    Seq::new(headers.len(), |i: int| headers[i]@)
}

/// The query parameters of a list, each as a name and a value.
pub open spec fn query_view(query: Seq<QueryParam>) -> Seq<(Seq<char>, QueryValueView)> {
    Seq::new(query.len(), |i: int| query[i]@)
}

impl View for Request {
    type V = RequestView;

    open spec fn view(&self) -> RequestView {
        RequestView {
            method: self.method,
            url: self.url@,
            query: query_view(self.query@),
            headers: headers_view(self.headers@),
            timeout_secs: self.timeout_secs,
            body: match self.body {
                Some(auth) => Some(auth.auth_token@),
                None => None,
            },
        }
    }
}

impl View for ClientSettings {
    type V = ClientSettingsView;

    open spec fn view(&self) -> ClientSettingsView {
        ClientSettingsView {
            default_headers: headers_view(self.default_headers@),
            timeout_secs: self.timeout_secs,
        }
    }
}

/// A request with an address and nothing else.
pub open spec fn bare_request(method: Method, url: Seq<char>) -> RequestView {
    RequestView {
        method,
        url,
        query: Seq::empty(),
        headers: Seq::empty(),
        timeout_secs: None,
        body: None,
    }
}

/// Appends a header to a list.
pub fn push_header(headers: &mut Vec<Header>, name: &str, value: &str)
    ensures
        headers_view(final(headers)@) == headers_view(old(headers)@).push((name@, value@)),
{
    headers.push(Header { name: String::from_str(name), value: String::from_str(value) });
    assert(headers_view(headers@) =~= headers_view(old(headers)@).push((name@, value@)));
}

impl Request {
    /// A `GET` of `url`.
    pub fn get(url: String) -> (r: Request)
        ensures
            r@ == bare_request(Method::Get, url@),
    {
        let r = Request {
            method: Method::Get,
            url,
            query: Vec::new(),
            headers: Vec::new(),
            timeout_secs: None,
            body: None,
        };
        assert(r@.query =~= Seq::empty());
        assert(r@.headers =~= Seq::empty());
        r
    }

    /// A `POST` to `url`.
    pub fn post(url: String) -> (r: Request)
        ensures
            r@ == bare_request(Method::Post, url@),
    {
        let r = Request {
            method: Method::Post,
            url,
            query: Vec::new(),
            headers: Vec::new(),
            timeout_secs: None,
            body: None,
        };
        assert(r@.query =~= Seq::empty());
        assert(r@.headers =~= Seq::empty());
        r
    }

    /// This request with one more query parameter, after those it has.
    pub fn query(self, name: &str, value: QueryValue) -> (r: Request)
        ensures
            r@ == (RequestView { query: self@.query.push((name@, value@)), ..self@ }),
    {
        let mut r = self;
        r.query.push(QueryParam { name: String::from_str(name), value });
        assert(r@.query =~= self@.query.push((name@, value@)));
        r
    }

    /// This request with one more header, after those it has.
    pub fn header(self, name: &str, value: &str) -> (r: Request)
        ensures
            r@ == (RequestView { headers: self@.headers.push((name@, value@)), ..self@ }),
    {
        let mut r = self;
        push_header(&mut r.headers, name, value);
        r
    }

    /// This request with a time limit of its own.
    pub fn timeout(self, secs: u64) -> (r: Request)
        ensures
            r@ == (RequestView { timeout_secs: Some(secs), ..self@ }),
    {
        let mut r = self;
        r.timeout_secs = Some(secs);
        r
    }

    /// This request with `body` as its JSON body.
    pub fn json(self, body: StudentAuth) -> (r: Request)
        ensures
            r@ == (RequestView { body: Some(body.auth_token@), ..self@ }),
    {
        let mut r = self;
        r.body = Some(body);
        r
    }
}

} // verus!
