//! The trace.moe endpoints: the records the service answers with, the search
//! query and its URL form, and the requests of each endpoint.
use vstd::prelude::*;
use vstd::string::*;
use vstd::utf8::encode_utf8;
use crate::client::{
    is_header_value, joined_url, parsed_url, request_outcome, set_header, Client, Method,
    PreparedRequest,
};
use crate::encoding::{decimal_bytes, decimal_numeral, form_encode, form_urlencoded};
use crate::error::ApiError;

verus! {

/// Base URL of the public trace.moe service.
pub const DEFAULT_BASE: &'static str = "https://api.trace.moe/";

/// Header that carries an API key to the service.
pub const KEY_HEADER: &'static str = "x-trace-key";

/// Episode of a match: a number, or a text where the file names none.
#[derive(Clone, Debug)]
pub enum Episode {
    Number(i64),
    Text(String),
}

/// Titles of an anime in AniList.
#[allow(non_camel_case_types)]
#[derive(Clone, Debug)]
pub struct anilist_infoTitle {
    pub native: Option<String>,
    pub romaji: Option<String>,
    pub english: Option<String>,
}

/// AniList metadata of a matched anime.
#[allow(non_camel_case_types)]
#[derive(Clone, Debug)]
pub struct anilist_info {
    pub id: i64,
    pub id_mal: Option<i64>,
    pub title: anilist_infoTitle,
    pub synonyms: Vec<String>,
    pub is_adult: bool,
}

/// The caller's account: priority, concurrency and search quota.
#[derive(Clone, Debug)]
pub struct MeResponse {
    pub id: String,
    pub priority: i64,
    pub concurrency: i64,
    pub quota: i64,
    pub quota_used: i64,
}

/// Parameters of a search; each one that is absent is left out of the query.
#[derive(Clone, Debug)]
pub struct SearchQuery {
    /// Address of the image to search for.
    pub url: Option<String>,
    /// Restrict the search to one AniList id.
    pub anilist_id: Option<i64>,
    /// Ask the service to cut black borders off the image.
    pub cut_borders: Option<bool>,
    /// Ask for AniList metadata in place of the bare id.
    pub anilist_info: Option<bool>,
}

impl Default for SearchQuery {
    fn default() -> (r: SearchQuery)
        ensures
            r.url is None,
            r.anilist_id is None,
            r.cut_borders is None,
            r.anilist_info is None,
    {
        SearchQuery { url: None, anilist_id: None, cut_borders: None, anilist_info: None }
    }
}

/// The query string `qs` with the pair `name=value` added, the name's UTF-8
/// bytes and the value form encoded, and a `&` before it unless `qs` is empty.
pub open spec fn with_pair(qs: Seq<char>, name: Seq<char>, value: Seq<u8>) -> Seq<char> {
    let pair = form_urlencoded(encode_utf8(name)) + seq!['='] + form_urlencoded(value);
    if qs.len() == 0 {
        pair
    } else {
        qs + seq!['&'] + pair
    }
}

/// The query string of a search: `url` with the UTF-8 bytes of the address,
/// `anilist_id` with its decimal numeral, then `cut_borders` and
/// `anilist_info` with an empty value where they are `Some(true)`, in that
/// order, each one only where it is present.
pub open spec fn query_string(q: SearchQuery) -> Seq<char> {
    let s1 = match q.url {
        Some(u) => with_pair(Seq::empty(), "url"@, encode_utf8(u@)),
        None => Seq::empty(),
    };
    let s2 = match q.anilist_id {
        Some(id) => with_pair(s1, "anilist_id"@, decimal_numeral(id as int)),
        None => s1,
    };
    let s3 = if q.cut_borders == Some(true) {
        with_pair(s2, "cut_borders"@, Seq::empty())
    } else {
        s2
    };
    if q.anilist_info == Some(true) {
        with_pair(s3, "anilist_info"@, Seq::empty())
    } else {
        s3
    }
}

/// The path `base` followed by `?` and the query string, or `base` alone where
/// the query string is empty.
pub open spec fn query_path(base: Seq<char>, q: SearchQuery) -> Seq<char> {
    let qs = query_string(q);
    if qs.len() == 0 {
        base
    } else {
        base + seq!['?'] + qs
    }
}

fn append_pair(qs: &mut String, name: &str, value: &[u8])
    ensures
        final(qs)@ == with_pair(old(qs)@, name@, value@),
{
    let ghost start = qs@;
    proof {
        reveal_strlit("&");
        reveal_strlit("=");
    }
    if !qs.as_str().is_empty() {
        qs.append("&");
    }
    let encoded_name = form_encode(name.as_bytes());
    qs.append(encoded_name.as_str());
    qs.append("=");
    let encoded = form_encode(value);
    qs.append(encoded.as_str());
    proof {
        let pair = form_urlencoded(encode_utf8(name@)) + seq!['='] + form_urlencoded(value@);
        if start.len() == 0 {
            assert(qs@ =~= pair);
        } else {
            assert(qs@ =~= start + seq!['&'] + pair);
        }
    }
}

/// The request path of a search on `base`: `base`, then `?` and the query
/// string where any parameter is set.
pub fn build_query_path(base: &str, query: &SearchQuery) -> (r: String)
    ensures
        r@ == query_path(base@, *query),
{
    let mut qs = String::new();
    match &query.url {
        Some(v) => append_pair(&mut qs, "url", v.as_str().as_bytes()),
        None => {},
    }
    match query.anilist_id {
        Some(id) => {
            let digits = decimal_bytes(id);
            append_pair(&mut qs, "anilist_id", digits.as_slice());
        },
        None => {},
    }
    match query.cut_borders {
        Some(true) => append_pair(&mut qs, "cut_borders", &[]),
        _ => {},
    }
    match query.anilist_info {
        Some(true) => append_pair(&mut qs, "anilist_info", &[]),
        _ => {},
    }
    if qs.as_str().is_empty() {
        base.to_owned()
    } else {
        let mut path = base.to_owned();
        proof {
            reveal_strlit("?");
        }
        path.append("?");
        path.append(qs.as_str());
        path
    }
}

/// The default headers that carry `api_key`, if any.
pub open spec fn key_headers(api_key: Option<&str>) -> Seq<(Seq<char>, Seq<char>)> {
    match api_key {
        Some(k) => seq![(KEY_HEADER@, k@)],
        None => Seq::empty(),
    }
}

/// A client for the public service, sending `api_key`, if given, in the
/// `x-trace-key` header.
pub fn new_client_with_key(api_key: Option<&str>) -> (r: Result<Client, ApiError>)
    requires
        api_key matches Some(k) ==> is_header_value(k@),
    ensures
        r is Ok <==> parsed_url(DEFAULT_BASE@) is Some,
        r matches Ok(c) ==> (parsed_url(DEFAULT_BASE@) == Some(c@.base_url) && c@.api_key is None
            && c@.headers == key_headers(api_key)),
        r matches Err(e) ==> e is Url,
{
    let client = Client::new(DEFAULT_BASE)?;
    match api_key {
        Some(key) => {
            proof {
                reveal_strlit("x-trace-key");
            }
            let c = client.with_default_header(KEY_HEADER.to_owned(), key.to_owned());
            proof {
                assert(set_header(Seq::empty(), KEY_HEADER@, key@) =~= seq![(KEY_HEADER@, key@)]);
            }
            Ok(c)
        },
        None => Ok(client),
    }
}

impl Client {
    /// The request of a search by image address: `GET` on the search path with
    /// the query string of `query`.
    pub fn search_by_url_request(&self, query: &SearchQuery) -> (r: Result<
        PreparedRequest,
        ApiError,
    >)
        ensures
            request_outcome(self@, Method::Get, query_path("search"@, *query), r),
    {
        let path = build_query_path("search", query);
        self.request(Method::Get, path.as_str())
    }

    /// The request of a search by uploaded image: `POST` on the search path;
    /// the image goes in its multipart body.
    pub fn search_upload_request(&self) -> (r: Result<PreparedRequest, ApiError>)
        ensures
            request_outcome(self@, Method::Post, "search"@, r),
    {
        self.request(Method::Post, "search")
    }

    /// The request of the account lookup: `GET` on the `me` path.
    pub fn me_request(&self) -> (r: Result<PreparedRequest, ApiError>)
        ensures
            request_outcome(self@, Method::Get, "me"@, r),
    {
        self.request(Method::Get, "me")
    }
}

} // verus!
