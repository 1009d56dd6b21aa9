//! What a search engine asks of the network: the request it wants sent, and
//! the checks on an endpoint and on headers that `reqwest` makes.

use vstd::prelude::*;
use crate::headers::{Headers, pairs_map};

verus! {

/// The body of a search request.
#[derive(Debug)]
pub enum SearchQuery {
    Tavily {
        api_key: String,
        include_answer: bool,
        include_images: bool,
        query: String,
        max_results: u8,
        include_raw_content: bool,
        search_depth: String,
    },
    Bing { count: u8, q: String, response_filter: String },
}

/// A request to post: where to, with which headers, and the body.
#[derive(Debug)]
pub struct SearchRequest {
    pub endpoint: String,
    pub headers: Headers,
    pub query: SearchQuery,
}

/// The body of a search request as a mathematical value.
pub enum SearchQueryModel {
    Tavily {
        api_key: Seq<char>,
        include_answer: bool,
        include_images: bool,
        query: Seq<char>,
        max_results: u8,
        include_raw_content: bool,
        search_depth: Seq<char>,
    },
    Bing { count: u8, q: Seq<char>, response_filter: Seq<char> },
}

/// A search request as a mathematical value.
pub struct SearchRequestModel {
    pub endpoint: Seq<char>,
    pub headers: Map<Seq<char>, Seq<char>>,
    pub query: SearchQueryModel,
}

impl View for SearchQuery {
    type V = SearchQueryModel;

    open spec fn view(&self) -> SearchQueryModel {
        match *self {
            SearchQuery::Tavily {
                api_key,
                include_answer,
                include_images,
                query,
                max_results,
                include_raw_content,
                search_depth,
            } => SearchQueryModel::Tavily {
                api_key: api_key@,
                include_answer,
                include_images,
                query: query@,
                max_results,
                include_raw_content,
                search_depth: search_depth@,
            },
            SearchQuery::Bing { count, q, response_filter } => SearchQueryModel::Bing {
                count,
                q: q@,
                response_filter: response_filter@,
            },
        }
    }
}

impl View for SearchRequest {
    type V = SearchRequestModel;

    open spec fn view(&self) -> SearchRequestModel {
        SearchRequestModel { endpoint: self.endpoint@, headers: self.headers@, query: self.query@ }
    }
}

/// The most headers that a request may carry. The header map of the HTTP
/// layer has at most 32768 slots; it refuses to grow, and the conversion
/// fails outright, once it is a fifth full and its names collide, which takes
/// 6554 headers.
pub const MAX_HEADERS: usize = 6553;

/// Whether `endpoint` parses as a URL.
pub uninterp spec fn url_accepted(endpoint: Seq<char>) -> bool;

/// Whether every name and every value of `headers` is fit for an HTTP header.
pub uninterp spec fn headers_accepted(headers: Map<Seq<char>, Seq<char>>) -> bool;

/// Calls `reqwest::Url::parse`. Trusted: whether the text parses depends on
/// the text alone.
#[verifier::external_body]
pub(crate) fn url_parses(endpoint: &str) -> (r: bool)
    ensures
        r == url_accepted(endpoint@),
{
    reqwest::Url::parse(endpoint).is_ok()
}

/// Converts the headers to a `reqwest::header::HeaderMap`, as `TryFrom` for a
/// `HashMap` does. Trusted: whether the conversion succeeds depends only on
/// the names and values, not on their order. With more than `MAX_HEADERS`
/// headers the header map may refuse to grow, and the call then does not
/// return.
#[verifier::external_body]
pub(crate) fn headers_convert(pairs: &Vec<(String, String)>) -> (r: bool)
    requires
        pairs@.len() <= MAX_HEADERS,
    ensures
        r == headers_accepted(pairs_map(pairs@)),
{
    let map: std::collections::HashMap<String, String> = pairs.iter().cloned().collect();
    reqwest::header::HeaderMap::<reqwest::header::HeaderValue>::try_from(&map).is_ok()
}

} // verus!
