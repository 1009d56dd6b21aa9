//! The Bing search engine.

use vstd::prelude::*;
use crate::headers::Headers;
use crate::json::{
    is_object, items, json_is_object, json_items, json_member, json_text, member, text,
};
use crate::request::{
    SearchQuery, SearchQueryModel, SearchRequest, SearchRequestModel, headers_accepted,
    headers_convert, url_accepted, url_parses,
};
use crate::search::{
    SearchEngine, SearchError, SearchErrorModel, SearchOutput, SearchResult, SearchResultModel,
    failure, request_outcome, search_outcome,
};

verus! {

/// A Bing search, ready to run.
#[derive(Debug)]
pub struct BingSearch {
    /// The most results to use.
    max_search_results: u8,
    /// The size that every result is clipped to.
    size_per_result: u16,
    /// Where the search is posted to.
    endpoint: String,
    /// Headers sent along with the search; the subscription key is one.
    additional_headers: Option<Headers>,
}

/// What a Bing search is set to, as a mathematical value.
pub struct BingModel {
    pub max_search_results: u8,
    pub size_per_result: u16,
    pub endpoint: Seq<char>,
    pub additional_headers: Option<Map<Seq<char>, Seq<char>>>,
}

impl View for BingSearch {
    type V = BingModel;

    closed spec fn view(&self) -> BingModel {
        BingModel {
            max_search_results: self.max_search_results,
            size_per_result: self.size_per_result,
            endpoint: self.endpoint@,
            additional_headers: match self.additional_headers {
                Some(h) => Some(h@),
                None => None,
            },
        }
    }
}

impl BingSearch {
    /// The search that nothing has been set on: five results of 300 bytes
    /// each at Bing's public endpoint, and no headers.
    pub open spec fn initial() -> BingModel {
        BingModel {
            max_search_results: 5,
            size_per_result: 300,
            endpoint: "https://api.bing.microsoft.com/v7.0/search"@,
            additional_headers: None,
        }
    }

    /// The name of the header that carries the subscription key.
    pub open spec fn key_header() -> Seq<char> {
        "Ocp-Apim-Subscription-Key"@
    }

    /// The request that a search described by `m` makes for `input`. The
    /// endpoint, the presence of the key and the headers are checked, in this
    /// order.
    pub open spec fn request_of(m: BingModel, input: Seq<char>) -> Result<
        SearchRequestModel,
        SearchErrorModel,
    > {
        if !url_accepted(m.endpoint) {
            Err(SearchErrorModel::Search("When parsing endpoint url: "@ + "Malformed endpoint url"@))
        } else {
            match m.additional_headers {
                Some(headers) if headers.contains_key(Self::key_header()) => if !headers_accepted(
                    headers,
                ) {
                    Err(
                        SearchErrorModel::Search(
                            "On converting headers: "@
                                + "Failed to convert headers from HashMaps to HeaderMaps"@,
                        ),
                    )
                } else {
                    Ok(
                        SearchRequestModel {
                            endpoint: m.endpoint,
                            headers,
                            query: SearchQueryModel::Bing {
                                count: m.max_search_results,
                                q: input,
                                response_filter: "Webpages"@,
                            },
                        },
                    )
                },
                _ => Err(
                    SearchErrorModel::Search(
                        "Fail to perform search. Not found 'Ocp-Apim-Subscription-Key' in additional headers."@,
                    ),
                ),
            }
        }
    }

    /// The result that one entry of the raw results stands for: the JSON text
    /// of its `url`, `siteName` and `snippet` members.
    pub open spec fn entry(raw: serde_json::Value) -> SearchResultModel {
        SearchResultModel {
            url: json_text(json_member(raw, "url"@)),
            site_name: json_text(json_member(raw, "siteName"@)),
            text_content: json_text(json_member(raw, "snippet"@)),
        }
    }

    /// The results that a raw document stands for: one for each entry of the
    /// `value` array of its `webPages` object.
    pub open spec fn results_in(raw: serde_json::Value) -> Result<
        Seq<SearchResultModel>,
        SearchErrorModel,
    > {
        let pages = json_member(raw, "webPages"@);
        if !json_is_object(pages) {
            Err(SearchErrorModel::Operation("no webpages found when parsing query."@))
        } else {
            match json_items(json_member(pages, "value"@)) {
                Some(entries) => Ok(entries.map_values(|e: serde_json::Value| Self::entry(e))),
                None => Err(
                    SearchErrorModel::Operation(
                        "could not convert the \"value\" field of \"webPages\" to an array"@,
                    ),
                ),
            }
        }
    }

    /// Where the search is posted to.
    pub fn endpoint(&self) -> (r: &str)
        ensures
            r@ == self@.endpoint,
    {
        self.endpoint.as_str()
    }

    /// The headers sent along with the search, if any are set.
    pub fn additional_headers(&self) -> (r: Option<&Headers>)
        ensures
            match r {
                Some(h) => self@.additional_headers == Some(h@),
                None => self@.additional_headers is None,
            },
    {
        self.additional_headers.as_ref()
    }
}

impl Default for BingSearch {
    fn default() -> (r: BingSearch)
        ensures
            r@ == BingSearch::initial(),
    {
        BingSearch {
            max_search_results: 5,
            size_per_result: 300,
            endpoint: String::from_str("https://api.bing.microsoft.com/v7.0/search"),
            additional_headers: None,
        }
    }
}

impl SearchEngine for BingSearch {
    closed spec fn header_count(&self) -> nat {
        match self.additional_headers {
            Some(h) => h.count(),
            None => 0,
        }
    }

    open spec fn request_for(&self, input: Seq<char>) -> Result<
        SearchRequestModel,
        SearchErrorModel,
    > {
        Self::request_of(self@, input)
    }

    open spec fn parsed(&self, raw: serde_json::Value) -> Result<
        Seq<SearchResultModel>,
        SearchErrorModel,
    > {
        Self::results_in(raw)
    }

    open spec fn result_limit(&self) -> u8 {
        self@.max_search_results
    }

    open spec fn size_limit(&self) -> u16 {
        self@.size_per_result
    }

    fn additional_header_count(&self) -> (r: usize)
        ensures
            r == self.header_count(),
    {
        match &self.additional_headers {
            Some(h) => h.len(),
            None => 0,
        }
    }

    fn request(&self, input: &str) -> (r: Result<SearchRequest, SearchError>)
        ensures
            request_outcome(r) == Self::request_of(self@, input@),
    {
        if !url_parses(self.endpoint.as_str()) {
            return Err(failure("When parsing endpoint url: ", "Malformed endpoint url"));
        }
        let headers = match &self.additional_headers {
            Some(h) => {
                if h.contains_key("Ocp-Apim-Subscription-Key") {
                    Some(h.clone())
                } else {
                    None
                }
            },
            None => None,
        };
        let headers = match headers {
            Some(h) => h,
            None => {
                return Err(
                    SearchError::Search(
                        String::from_str(
                            "Fail to perform search. Not found 'Ocp-Apim-Subscription-Key' in additional headers.",
                        ),
                    ),
                );
            },
        };
        if !headers_convert(headers.pairs()) {
            return Err(
                failure(
                    "On converting headers: ",
                    "Failed to convert headers from HashMaps to HeaderMaps",
                ),
            );
        }
        Ok(
            SearchRequest {
                endpoint: self.endpoint.clone(),
                headers,
                query: SearchQuery::Bing {
                    count: self.max_search_results,
                    q: String::from_str(input),
                    response_filter: String::from_str("Webpages"),
                },
            },
        )
    }

    fn parse_raw_results(&self, raw_results: &serde_json::Value) -> (r: Result<
        SearchOutput,
        SearchError,
    >)
        ensures
            search_outcome(r) == Self::results_in(*raw_results),
    {
        let pages = member(raw_results, "webPages");
        if !is_object(pages) {
            return Err(
                SearchError::Operation(String::from_str("no webpages found when parsing query.")),
            );
        }
        let entries = match items(member(pages, "value")) {
            Some(entries) => entries,
            None => {
                return Err(
                    SearchError::Operation(
                        String::from_str(
                            "could not convert the \"value\" field of \"webPages\" to an array",
                        ),
                    ),
                );
            },
        };
        let mut results: Vec<SearchResult> = Vec::new();
        let mut i: usize = 0;
        while i < entries.len()
            invariant
                i <= entries.len(),
                results@.len() == i,
                forall|j: int| 0 <= j < i ==> (#[trigger] results@[j])@ == Self::entry(entries@[j]),
            decreases entries.len() - i,
        {
            let entry = &entries[i];
            results.push(
                SearchResult {
                    url: text(member(entry, "url")),
                    site_name: text(member(entry, "siteName")),
                    text_content: text(member(entry, "snippet")),
                },
            );
            i = i + 1;
        }
        let output = SearchOutput { results };
        assert(output@ =~= entries@.map_values(|e: serde_json::Value| Self::entry(e)));
        Ok(output)
    }

    fn max_search_results(&self) -> (r: u8)
        ensures
            r == self@.max_search_results,
    {
        self.max_search_results
    }

    fn size_per_result(&self) -> (r: u16)
        ensures
            r == self@.size_per_result,
    {
        self.size_per_result
    }
}

/// Builds a Bing search step by step.
#[derive(Debug)]
pub struct BingSearchBuilder {
    engine: BingSearch,
}

impl View for BingSearchBuilder {
    type V = BingModel;

    closed spec fn view(&self) -> BingModel {
        self.engine@
    }
}

impl BingSearchBuilder {
    /// Starts from the initial search, with `api_key` as the subscription key
    /// among its headers.
    pub fn new(api_key: &str) -> (r: Self)
        ensures
            r@ == (BingModel {
                additional_headers: Some(
                    Map::<Seq<char>, Seq<char>>::empty().insert(BingSearch::key_header(), api_key@),
                ),
                ..BingSearch::initial()
            }),
    {
        let mut additional_headers = Headers::new();
        additional_headers.insert(
            String::from_str("Ocp-Apim-Subscription-Key"),
            String::from_str(api_key),
        );
        let mut engine = BingSearch::default();
        engine.additional_headers = Some(additional_headers);
        Self { engine }
    }

    /// Sets the most results to use.
    pub fn with_max_results(self, max_results: u8) -> (r: Self)
        ensures
            r@ == (BingModel { max_search_results: max_results, ..self@ }),
    {
        let mut builder = self;
        builder.engine.max_search_results = max_results;
        builder
    }

    /// Sets the size, in bytes, that the text of every result is clipped to.
    pub fn with_size_per_result(self, size_per_result: u16) -> (r: Self)
        ensures
            r@ == (BingModel { size_per_result, ..self@ }),
    {
        let mut builder = self;
        builder.engine.size_per_result = size_per_result;
        builder
    }

    /// Sets where the search is posted to.
    pub fn with_endpoint(self, endpoint: String) -> (r: Self)
        ensures
            r@ == (BingModel { endpoint: endpoint@, ..self@ }),
    {
        let mut builder = self;
        builder.engine.endpoint = endpoint;
        builder
    }

    /// Adds headers to those already set; a header given here replaces one of
    /// the same name.
    pub fn with_additional_headers(self, additional_headers: Headers) -> (r: Self)
        ensures
            r@ == (BingModel {
                additional_headers: Some(
                    match self@.additional_headers {
                        Some(current) => current.union_prefer_right(additional_headers@),
                        None => additional_headers@,
                    },
                ),
                ..self@
            }),
    {
        let BingSearchBuilder { engine } = self;
        let BingSearch { max_search_results, size_per_result, endpoint, additional_headers: current } =
            engine;
        let merged = match current {
            Some(current) => {
                let mut current = current;
                current.extend(additional_headers);
                current
            },
            None => additional_headers,
        };
        BingSearchBuilder {
            engine: BingSearch {
                max_search_results,
                size_per_result,
                endpoint,
                additional_headers: Some(merged),
            },
        }
    }

    /// The search as built so far.
    pub fn build(self) -> (r: BingSearch)
        ensures
            r@ == self@,
    {
        self.engine
    }
}

} // verus!
