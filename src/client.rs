//! The service client: its base URL, credentials and default headers, and the
//! requests it prepares.
use vstd::prelude::*;
use crate::error::ApiError;

verus! {

/// What `url::Url::parse` makes of a text: the serialization of the URL, or
/// nothing where the text is not an absolute URL.
pub uninterp spec fn parsed_url(input: Seq<char>) -> Option<Seq<char>>;

/// What `url::Url::join` makes of a reference resolved against a base URL
/// given by its text: the serialization of the result, or nothing where either
/// fails to parse.
pub uninterp spec fn joined_url(base: Seq<char>, reference: Seq<char>) -> Option<Seq<char>>;

/// Relies on url::Url::parse: whether the text parses, and the serialization
/// of the URL it gives, depend on the text alone.
#[verifier::external_body]
fn parse_url(input: &str) -> (r: Result<String, url::ParseError>)
    ensures
        r is Ok <==> parsed_url(input@) is Some,
        r matches Ok(s) ==> parsed_url(input@) == Some(s@),
{
    url::Url::parse(input).map(String::from)
}

/// Relies on url::Url::join, applied to the URL that url::Url::parse reads
/// from `base`: the outcome depends on the two texts alone.
#[verifier::external_body]
fn join_url(base: &str, reference: &str) -> (r: Result<String, url::ParseError>)
    ensures
        r is Ok <==> joined_url(base@, reference@) is Some,
        r matches Ok(s) ==> joined_url(base@, reference@) == Some(s@),
{
    url::Url::parse(base)?.join(reference).map(String::from)
}

/// `StatusCode::is_success`: a status in `200..=299`.
pub open spec fn is_success_status(status: u16) -> bool {
    200 <= status && status <= 299
}

/// A character that may stand in an HTTP header value: anything but the
/// ASCII control characters, where a tab is allowed.
pub open spec fn header_value_char(c: char) -> bool {
    (c as u32 >= 32 && c as u32 != 127) || c == '\t'
}

/// A text that can be sent as an HTTP header value.
pub open spec fn is_header_value(s: Seq<char>) -> bool {
    forall|i: int| 0 <= i < s.len() ==> header_value_char(#[trigger] s[i])
}

/// A character of a lower-case HTTP header name (a token of RFC 9110).
pub open spec fn header_name_char(c: char) -> bool {
    ('a' <= c && c <= 'z') || ('0' <= c && c <= '9') || c == '!' || c == '#' || c == '$' || c
        == '%' || c == '&' || c == '\'' || c == '*' || c == '+' || c == '-' || c == '.' || c
        == '^' || c == '_' || c == '`' || c == '|' || c == '~'
}

/// A non-empty lower-case HTTP header name.
pub open spec fn is_header_name(s: Seq<char>) -> bool {
    s.len() > 0 && forall|i: int| 0 <= i < s.len() ==> header_name_char(#[trigger] s[i])
}

/// Headers as a sequence of (name, value) texts, in the order of insertion.
pub open spec fn headers_view(hs: Seq<(String, String)>) -> Seq<(Seq<char>, Seq<char>)> {
    hs.map_values(|h: (String, String)| (h.0@, h.1@))
}

/// No two headers share a name.
pub open spec fn headers_distinct(hs: Seq<(Seq<char>, Seq<char>)>) -> bool {
    forall|i: int, j: int|
        0 <= i < hs.len() && 0 <= j < hs.len() && i != j ==> #[trigger] hs[i].0 != #[trigger] hs[j].0
}

/// The headers after setting `name` to `value`: the entry of that name, if any,
/// takes the new value in place; otherwise the pair is added at the end. On
/// headers with distinct names this leaves exactly one entry of that name.
pub open spec fn set_header(
    hs: Seq<(Seq<char>, Seq<char>)>,
    name: Seq<char>,
    value: Seq<char>,
) -> Seq<(Seq<char>, Seq<char>)> {
    if exists|i: int| 0 <= i < hs.len() && hs[i].0 == name {
        let i = choose|i: int|
            0 <= i < hs.len() && hs[i].0 == name && forall|j: int| 0 <= j < i ==> hs[j].0 != name;
        hs.update(i, (name, value))
    } else {
        hs.push((name, value))
    }
}

/// What preparing the request `method` on `path` for a client `c` gives: the
/// path resolved against the base URL, with the client's default headers and
/// API key; a `Url` error exactly where the path cannot be resolved.
pub open spec fn request_outcome(
    c: ClientView,
    method: Method,
    path: Seq<char>,
    r: Result<PreparedRequest, ApiError>,
) -> bool {
    match r {
        Ok(p) => joined_url(c.base_url, path) == Some(p.url@) && p.method == method
            && headers_view(p.headers@) == c.headers && option_view(p.bearer) == c.api_key,
        Err(e) => joined_url(c.base_url, path) is None && e is Url,
    }
}

/// The HTTP method of a request.
#[derive(Clone, Copy, Debug, PartialEq, Eq, Structural)]
pub enum Method {
    Get,
    Post,
}

/// Everything that decides a request apart from its body: the method, the
/// absolute URL, the headers sent with it and the bearer token, if any.
#[derive(Clone, Debug)]
pub struct PreparedRequest {
    pub method: Method,
    pub url: String,
    pub headers: Vec<(String, String)>,
    pub bearer: Option<String>,
}

/// The abstract state of a client.
pub struct ClientView {
    pub base_url: Seq<char>,
    pub api_key: Option<Seq<char>>,
    pub headers: Seq<(Seq<char>, Seq<char>)>,
}

/// Client of the service: the base URL that request paths are resolved
/// against, a bearer API key, and headers sent with every request.
#[derive(Debug)]
pub struct Client {
    base_url: String,
    api_key: Option<String>,
    default_headers: Vec<(String, String)>,
}

/// The text of an optional string.
pub open spec fn option_view(o: Option<String>) -> Option<Seq<char>> {
    match o {
        Some(s) => Some(s@),
        None => None,
    }
}

impl Client {
    /// Header names stay distinct: setting a header replaces its value.
    #[verifier::type_invariant]
    spec fn headers_unique(&self) -> bool {
        headers_distinct(headers_view(self.default_headers@))
    }
}

impl View for Client {
    type V = ClientView;

    closed spec fn view(&self) -> ClientView {
        ClientView {
            base_url: self.base_url@,
            api_key: option_view(self.api_key),
            headers: headers_view(self.default_headers@),
        }
    }
}

fn clone_headers(hs: &Vec<(String, String)>) -> (r: Vec<(String, String)>)
    ensures
        headers_view(r@) == headers_view(hs@),
{
    let mut out: Vec<(String, String)> = Vec::new();
    let mut i: usize = 0;
    while i < hs.len()
        invariant
            i <= hs.len(),
            out@.len() == i,
            forall|k: int| 0 <= k < i ==> #[trigger] out@[k].0@ == hs@[k].0@ && out@[k].1@ == hs@[k].1@,
        decreases hs.len() - i,
    {
        let entry = &hs[i];
        let name = entry.0.clone();
        let value = entry.1.clone();
        out.push((name, value));
        i = i + 1;
    }
    proof {
        assert(headers_view(out@) =~= headers_view(hs@));
    }
    out
}

fn clone_option(o: &Option<String>) -> (r: Option<String>)
    ensures
        option_view(r) == option_view(*o),
{
    match o {
        Some(s) => Some(s.clone()),
        None => None,
    }
}

impl Clone for Client {
    fn clone(&self) -> (r: Client)
        ensures
            r@ == self@,
    {
        proof {
            use_type_invariant(self);
        }
        Client {
            base_url: self.base_url.clone(),
            api_key: clone_option(&self.api_key),
            default_headers: clone_headers(&self.default_headers),
        }
    }
}

impl Client {
    /// A client for the service at `base_url`, with no API key and no default
    /// headers; an error where `base_url` is not an absolute URL.
    pub fn new(base_url: &str) -> (r: Result<Client, ApiError>)
        ensures
            r is Ok <==> parsed_url(base_url@) is Some,
            r matches Ok(c) ==> (parsed_url(base_url@) == Some(c@.base_url) && c@.api_key is None
                && c@.headers.len() == 0 && headers_distinct(c@.headers)),
            r matches Err(e) ==> e is Url,
    {
        match parse_url(base_url) {
            Ok(url) => {
                let c = Client { base_url: url, api_key: None, default_headers: Vec::new() };
                proof {
                    assert(headers_view(c.default_headers@) =~= Seq::empty());
                }
                Ok(c)
            },
            Err(e) => Err(ApiError::Url(e)),
        }
    }

    /// The base URL that request paths are resolved against, as the `url`
    /// crate serializes it.
    pub fn base_url(&self) -> (r: &str)
        ensures
            r@ == self@.base_url,
    {
        self.base_url.as_str()
    }

    /// The same client, with `api_key` sent as a bearer token on every request.
    pub fn with_api_key(self, api_key: String) -> (r: Client)
        ensures
            r@.base_url == self@.base_url,
            r@.api_key == Some(api_key@),
            r@.headers == self@.headers,
            headers_distinct(r@.headers),
    {
        proof {
            use_type_invariant(&self);
        }
        Client { api_key: Some(api_key), ..self }
    }

    /// The same client, with header `name` set to `value` on every request.
    pub fn with_default_header(self, name: String, value: String) -> (r: Client)
        requires
            is_header_name(name@),
            is_header_value(value@),
        ensures
            r@.base_url == self@.base_url,
            r@.api_key == self@.api_key,
            r@.headers == set_header(self@.headers, name@, value@),
            headers_distinct(r@.headers),
            exists|i: int| 0 <= i < r@.headers.len() && r@.headers[i] == (name@, value@),
            forall|i: int|
                0 <= i < r@.headers.len() && #[trigger] r@.headers[i].0 == name@ ==> r@.headers[i].1
                    == value@,
            forall|n: Seq<char>, v: Seq<char>|
                n != name@ ==> (self@.headers.contains((n, v)) <==> #[trigger] r@.headers.contains(
                    (n, v),
                )),
    {
        proof {
            use_type_invariant(&self);
        }
        let mut hs = self.default_headers;
        let ghost old_hs = headers_view(hs@);
        let mut i: usize = 0;
        while i < hs.len() && !(hs[i].0 == name)
            invariant
                i <= hs.len(),
                old_hs == headers_view(hs@),
                forall|j: int| 0 <= j < i ==> old_hs[j].0 != name@,
            decreases hs.len() - i,
        {
            i = i + 1;
        }
        if i < hs.len() {
            proof {
                assert(0 <= i < old_hs.len() && old_hs[i as int].0 == name@ && forall|j: int|
                    0 <= j < i ==> old_hs[j].0 != name@);
            }
            hs.set(i, (name, value));
            proof {
                let k = choose|k: int|
                    0 <= k < old_hs.len() && old_hs[k].0 == name@ && forall|j: int|
                        0 <= j < k ==> old_hs[j].0 != name@;
                assert(k == i);
                assert(headers_view(hs@) =~= old_hs.update(i as int, (name@, value@)));
                let nh = headers_view(hs@);
                assert(nh[i as int] == (name@, value@));
                assert forall|n: Seq<char>, v: Seq<char>| n != name@ implies (old_hs.contains((n, v))
                    <==> nh.contains((n, v))) by {
                    if old_hs.contains((n, v)) {
                        let j = choose|j: int| 0 <= j < old_hs.len() && old_hs[j] == (n, v);
                        assert(nh[j] == (n, v));
                    }
                    if nh.contains((n, v)) {
                        let j = choose|j: int| 0 <= j < nh.len() && nh[j] == (n, v);
                        assert(old_hs[j] == (n, v));
                    }
                }
            }
        } else {
            hs.push((name, value));
            proof {
                assert(headers_view(hs@) =~= old_hs.push((name@, value@)));
                let nh = headers_view(hs@);
                assert(nh[old_hs.len() as int] == (name@, value@));
                assert forall|n: Seq<char>, v: Seq<char>| n != name@ implies (old_hs.contains((n, v))
                    <==> nh.contains((n, v))) by {
                    if old_hs.contains((n, v)) {
                        let j = choose|j: int| 0 <= j < old_hs.len() && old_hs[j] == (n, v);
                        assert(nh[j] == (n, v));
                    }
                    if nh.contains((n, v)) {
                        let j = choose|j: int| 0 <= j < nh.len() && nh[j] == (n, v);
                        assert(old_hs[j] == (n, v));
                    }
                }
            }
        }
        Client { base_url: self.base_url, api_key: self.api_key, default_headers: hs }
    }

    /// The request `method` on `path` resolved against the base URL, with the
    /// default headers and the API key; an error where the path cannot be
    /// resolved.
    pub fn request(&self, method: Method, path: &str) -> (r: Result<PreparedRequest, ApiError>)
        ensures
            request_outcome(self@, method, path@, r),
    {
        match join_url(self.base_url.as_str(), path) {
            Ok(url) => Ok(
                PreparedRequest {
                    method,
                    url,
                    headers: clone_headers(&self.default_headers),
                    bearer: clone_option(&self.api_key),
                },
            ),
            Err(e) => Err(ApiError::Url(e)),
        }
    }

    /// The body of an answer with HTTP status `status`: kept where the status
    /// is a success, an `Http` error carrying both otherwise.
    pub fn check_status(status: u16, body: String) -> (r: Result<String, ApiError>)
        ensures
            is_success_status(status) ==> r == Ok::<String, ApiError>(body),
            !is_success_status(status) ==> (r matches Err(ApiError::Http { status: s, body: b })
                && s == status && b == body),
    {
        if 200 <= status && status <= 299 {
            Ok(body)
        } else {
            Err(ApiError::Http { status, body })
        }
    }
}

} // verus!
