//! The Tavily search engine.

use vstd::prelude::*;
use crate::headers::Headers;
use crate::json::{items, json_items, json_member, json_text, member, text};
use crate::request::{
    SearchQuery, SearchQueryModel, SearchRequest, SearchRequestModel, headers_accepted,
    headers_convert, url_accepted, url_parses,
};
use crate::search::{
    SearchEngine, SearchError, SearchErrorModel, SearchOutput, SearchResult, SearchResultModel,
    failure, request_outcome, search_outcome,
};

verus! {

/// A Tavily search, ready to run.
#[derive(Debug)]
pub struct TavilySearch {
    api_key: String,
    include_answer: bool,
    include_images: bool,
    include_raw_content: bool,
    /// The most results to use.
    max_search_results: u8,
    /// How deep to search.
    search_depth: String,
    /// The size that every result is clipped to.
    size_per_result: u16,
    /// Where the search is posted to.
    endpoint: String,
    /// Headers sent along with the search.
    additional_headers: Option<Headers>,
}

/// What a Tavily search is set to, as a mathematical value.
pub struct TavilyModel {
    pub api_key: Seq<char>,
    pub include_answer: bool,
    pub include_images: bool,
    pub include_raw_content: bool,
    pub max_search_results: u8,
    pub search_depth: Seq<char>,
    pub size_per_result: u16,
    pub endpoint: Seq<char>,
    pub additional_headers: Option<Map<Seq<char>, Seq<char>>>,
}

impl View for TavilySearch {
    type V = TavilyModel;

    closed spec fn view(&self) -> TavilyModel {
        TavilyModel {
            api_key: self.api_key@,
            include_answer: self.include_answer,
            include_images: self.include_images,
            include_raw_content: self.include_raw_content,
            max_search_results: self.max_search_results,
            search_depth: self.search_depth@,
            size_per_result: self.size_per_result,
            endpoint: self.endpoint@,
            additional_headers: match self.additional_headers {
                Some(h) => Some(h@),
                None => None,
            },
        }
    }
}

impl TavilySearch {
    /// The search that nothing has been set on: no key, five results of 300
    /// bytes each, an advanced search at Tavily's public endpoint.
    pub open spec fn initial() -> TavilyModel {
        TavilyModel {
            api_key: ""@,
            include_answer: false,
            include_images: false,
            include_raw_content: false,
            max_search_results: 5,
            search_depth: "advanced"@,
            size_per_result: 300,
            endpoint: "https://api.tavily.com/search"@,
            additional_headers: None,
        }
    }

    /// The request that a search described by `m` makes for `input`. The
    /// endpoint, the headers and the key are checked, in this order.
    pub open spec fn request_of(m: TavilyModel, input: Seq<char>) -> Result<
        SearchRequestModel,
        SearchErrorModel,
    > {
        let headers = match m.additional_headers {
            Some(h) => h,
            None => Map::empty(),
        };
        if !url_accepted(m.endpoint) {
            Err(SearchErrorModel::Search("When parsing endpoint url: "@ + "Malformed endpoint url"@))
        } else if !headers_accepted(headers) {
            Err(
                SearchErrorModel::Search(
                    "On converting headers: "@
                        + "Failed to convert headers from HashMaps to HeaderMaps"@,
                ),
            )
        } else if m.api_key.len() == 0 {
            Err(SearchErrorModel::Search("Fail to perform search. API key is empty."@))
        } else {
            Ok(
                SearchRequestModel {
                    endpoint: m.endpoint,
                    headers,
                    query: SearchQueryModel::Tavily {
                        api_key: m.api_key,
                        include_answer: m.include_answer,
                        include_images: m.include_images,
                        query: input,
                        max_results: m.max_search_results,
                        include_raw_content: m.include_raw_content,
                        search_depth: m.search_depth,
                    },
                },
            )
        }
    }

    /// The result that one entry of the raw results stands for: the JSON text
    /// of its `url`, `title` and `content` members.
    pub open spec fn entry(raw: serde_json::Value) -> SearchResultModel {
        SearchResultModel {
            url: json_text(json_member(raw, "url"@)),
            site_name: json_text(json_member(raw, "title"@)),
            text_content: json_text(json_member(raw, "content"@)),
        }
    }

    /// The results that a raw document stands for: one for each entry of its
    /// `results` array.
    pub open spec fn results_in(raw: serde_json::Value) -> Result<
        Seq<SearchResultModel>,
        SearchErrorModel,
    > {
        match json_items(json_member(raw, "results"@)) {
            Some(entries) => Ok(entries.map_values(|e: serde_json::Value| Self::entry(e))),
            None => Err(SearchErrorModel::Search("No results returned from server"@)),
        }
    }

    /// The key that the search presents.
    pub fn api_key(&self) -> (r: &str)
        ensures
            r@ == self@.api_key,
    {
        self.api_key.as_str()
    }

    /// How deep the search goes.
    pub fn search_depth(&self) -> (r: &str)
        ensures
            r@ == self@.search_depth,
    {
        self.search_depth.as_str()
    }

    /// Where the search is posted to.
    pub fn endpoint(&self) -> (r: &str)
        ensures
            r@ == self@.endpoint,
    {
        self.endpoint.as_str()
    }

    /// Whether the search asks for an answer.
    pub fn includes_answer(&self) -> (r: bool)
        ensures
            r == self@.include_answer,
    {
        self.include_answer
    }

    /// Whether the search asks for images.
    pub fn includes_images(&self) -> (r: bool)
        ensures
            r == self@.include_images,
    {
        self.include_images
    }

    /// Whether the search asks for the raw content of each page.
    pub fn includes_raw_content(&self) -> (r: bool)
        ensures
            r == self@.include_raw_content,
    {
        self.include_raw_content
    }

    /// The headers sent along with the search, if any are set.
    pub fn additional_headers(&self) -> (r: Option<&Headers>)
        ensures
            match r {
                Some(h) => self@.additional_headers == Some(h@),
                None => self@.additional_headers is None,
            },
    {
        self.additional_headers.as_ref()
    }
}

impl Default for TavilySearch {
    fn default() -> (r: TavilySearch)
        ensures
            r@ == TavilySearch::initial(),
    {
        TavilySearch {
            api_key: String::from_str(""),
            include_answer: false,
            include_images: false,
            include_raw_content: false,
            max_search_results: 5,
            search_depth: String::from_str("advanced"),
            size_per_result: 300,
            endpoint: String::from_str("https://api.tavily.com/search"),
            additional_headers: None,
        }
    }
}

impl SearchEngine for TavilySearch {
    closed spec fn header_count(&self) -> nat {
        match self.additional_headers {
            Some(h) => h.count(),
            None => 0,
        }
    }

    open spec fn request_for(&self, input: Seq<char>) -> Result<
        SearchRequestModel,
        SearchErrorModel,
    > {
        Self::request_of(self@, input)
    }

    open spec fn parsed(&self, raw: serde_json::Value) -> Result<
        Seq<SearchResultModel>,
        SearchErrorModel,
    > {
        Self::results_in(raw)
    }

    open spec fn result_limit(&self) -> u8 {
        self@.max_search_results
    }

    open spec fn size_limit(&self) -> u16 {
        self@.size_per_result
    }

    fn additional_header_count(&self) -> (r: usize)
        ensures
            r == self.header_count(),
    {
        match &self.additional_headers {
            Some(h) => h.len(),
            None => 0,
        }
    }

    fn request(&self, input: &str) -> (r: Result<SearchRequest, SearchError>)
        ensures
            request_outcome(r) == Self::request_of(self@, input@),
    {
        if !url_parses(self.endpoint.as_str()) {
            return Err(failure("When parsing endpoint url: ", "Malformed endpoint url"));
        }
        let headers = match &self.additional_headers {
            Some(h) => h.clone(),
            None => Headers::new(),
        };
        if !headers_convert(headers.pairs()) {
            return Err(
                failure(
                    "On converting headers: ",
                    "Failed to convert headers from HashMaps to HeaderMaps",
                ),
            );
        }
        if self.api_key.as_str().is_empty() {
            return Err(
                SearchError::Search(String::from_str("Fail to perform search. API key is empty.")),
            );
        }
        Ok(
            SearchRequest {
                endpoint: self.endpoint.clone(),
                headers,
                query: SearchQuery::Tavily {
                    api_key: self.api_key.clone(),
                    include_answer: self.include_answer,
                    include_images: self.include_images,
                    query: String::from_str(input),
                    max_results: self.max_search_results,
                    include_raw_content: self.include_raw_content,
                    search_depth: self.search_depth.clone(),
                },
            },
        )
    }

    fn parse_raw_results(&self, raw_results: &serde_json::Value) -> (r: Result<
        SearchOutput,
        SearchError,
    >)
        ensures
            search_outcome(r) == Self::results_in(*raw_results),
    {
        let entries = match items(member(raw_results, "results")) {
            Some(entries) => entries,
            None => {
                return Err(SearchError::Search(String::from_str("No results returned from server")));
            },
        };
        let mut results: Vec<SearchResult> = Vec::new();
        let mut i: usize = 0;
        while i < entries.len()
            invariant
                i <= entries.len(),
                results@.len() == i,
                forall|j: int| 0 <= j < i ==> (#[trigger] results@[j])@ == Self::entry(entries@[j]),
            decreases entries.len() - i,
        {
            let entry = &entries[i];
            results.push(
                SearchResult {
                    url: text(member(entry, "url")),
                    site_name: text(member(entry, "title")),
                    text_content: text(member(entry, "content")),
                },
            );
            i = i + 1;
        }
        let output = SearchOutput { results };
        assert(output@ =~= entries@.map_values(|e: serde_json::Value| Self::entry(e)));
        Ok(output)
    }

    fn max_search_results(&self) -> (r: u8)
        ensures
            r == self@.max_search_results,
    {
        self.max_search_results
    }

    fn size_per_result(&self) -> (r: u16)
        ensures
            r == self@.size_per_result,
    {
        self.size_per_result
    }
}

/// Builds a Tavily search step by step.
#[derive(Debug)]
pub struct TavilySearchBuilder {
    engine: TavilySearch,
}

impl View for TavilySearchBuilder {
    type V = TavilyModel;

    closed spec fn view(&self) -> TavilyModel {
        self.engine@
    }
}

impl TavilySearchBuilder {
    /// Starts from the initial search, with `api_key` as its key.
    pub fn new(api_key: &str) -> (r: Self)
        ensures
            r@ == (TavilyModel { api_key: api_key@, ..TavilySearch::initial() }),
    {
        let mut engine = TavilySearch::default();
        engine.api_key = String::from_str(api_key);
        Self { engine }
    }

    /// Sets whether the search asks for an answer.
    pub fn include_answer(self, include_answer: bool) -> (r: Self)
        ensures
            r@ == (TavilyModel { include_answer, ..self@ }),
    {
        let mut builder = self;
        builder.engine.include_answer = include_answer;
        builder
    }

    /// Sets whether the search asks for images.
    pub fn include_images(self, include_images: bool) -> (r: Self)
        ensures
            r@ == (TavilyModel { include_images, ..self@ }),
    {
        let mut builder = self;
        builder.engine.include_images = include_images;
        builder
    }

    /// Sets whether the search asks for the raw content of each page.
    pub fn include_raw_content(self, include_raw_content: bool) -> (r: Self)
        ensures
            r@ == (TavilyModel { include_raw_content, ..self@ }),
    {
        let mut builder = self;
        builder.engine.include_raw_content = include_raw_content;
        builder
    }

    /// Sets the most results to use.
    pub fn with_max_results(self, max_results: u8) -> (r: Self)
        ensures
            r@ == (TavilyModel { max_search_results: max_results, ..self@ }),
    {
        let mut builder = self;
        builder.engine.max_search_results = max_results;
        builder
    }

    /// Sets how deep the search goes.
    pub fn with_search_depth(self, search_depth: String) -> (r: Self)
        ensures
            r@ == (TavilyModel { search_depth: search_depth@, ..self@ }),
    {
        let mut builder = self;
        builder.engine.search_depth = search_depth;
        builder
    }

    /// Sets the size, in bytes, that the text of every result is clipped to.
    pub fn with_size_per_result(self, size_per_result: u16) -> (r: Self)
        ensures
            r@ == (TavilyModel { size_per_result, ..self@ }),
    {
        let mut builder = self;
        builder.engine.size_per_result = size_per_result;
        builder
    }

    /// Sets where the search is posted to.
    pub fn with_endpoint(self, endpoint: String) -> (r: Self)
        ensures
            r@ == (TavilyModel { endpoint: endpoint@, ..self@ }),
    {
        let mut builder = self;
        builder.engine.endpoint = endpoint;
        builder
    }

    /// Sets the additional headers, in place of any set before.
    pub fn with_additional_headers(self, additional_headers: Headers) -> (r: Self)
        ensures
            r@ == (TavilyModel { additional_headers: Some(additional_headers@), ..self@ }),
    {
        let mut builder = self;
        builder.engine.additional_headers = Some(additional_headers);
        builder
    }

    /// The search as built so far.
    pub fn build(self) -> (r: TavilySearch)
        ensures
            r@ == self@,
    {
        self.engine
    }
}

} // verus!
