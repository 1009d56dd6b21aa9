//! Web search results: what a search returns, how the raw results are cut to
//! size, and the text that asks a model to summarise them.

use vstd::prelude::*;
use vstd::utf8::encode_utf8_valid_utf8;
use crate::json::{json_parse, parse};
use crate::request::{MAX_HEADERS, SearchRequest, SearchRequestModel};
use crate::text::{push, split_text, splits_at, text_before, trim, trim_spec};

pub mod bing_search;
pub mod tavily_search;

verus! {

/// Why a search, or the reading of its results, failed.
#[derive(Debug, Clone, PartialEq, Eq)]
pub enum SearchError {
    /// A step that reads the results failed.
    Operation(String),
    /// The search itself could not be made or gave nothing usable.
    Search(String),
}

/// A search failure as a mathematical value.
pub enum SearchErrorModel {
    Operation(Seq<char>),
    Search(Seq<char>),
}

impl View for SearchError {
    type V = SearchErrorModel;

    open spec fn view(&self) -> SearchErrorModel {
        match *self {
            SearchError::Operation(t) => SearchErrorModel::Operation(t@),
            SearchError::Search(t) => SearchErrorModel::Search(t@),
        }
    }
}

impl SearchError {
    /// The text that the error carries.
    pub open spec fn text(self) -> Seq<char> {
        match self {
            SearchError::Operation(t) => t@,
            SearchError::Search(t) => t@,
        }
    }

    /// The description of the error.
    pub fn message(&self) -> (r: String)
        ensures
            r@ == self.text(),
    {
        match self {
            SearchError::Operation(t) => t.clone(),
            SearchError::Search(t) => t.clone(),
        }
    }
}

/// The content types that a search engine takes and gives.
#[derive(Debug, Clone, PartialEq, Eq)]
pub enum ContentType {
    JSON,
}

impl ContentType {
    /// The media type, as it stands in a header.
    pub fn to_string(&self) -> (r: String)
        ensures
            r@ == "application/json"@,
    {
        match self {
            ContentType::JSON => String::from_str("application/json"),
        }
    }
}

/// One result of a search.
#[derive(Debug)]
pub struct SearchResult {
    pub url: String,
    pub site_name: String,
    pub text_content: String,
}

/// The results of a search, ready for a model to read.
#[derive(Debug)]
pub struct SearchOutput {
    pub results: Vec<SearchResult>,
}

/// A search result as a mathematical value.
pub struct SearchResultModel {
    pub url: Seq<char>,
    pub site_name: Seq<char>,
    pub text_content: Seq<char>,
}

impl View for SearchResult {
    type V = SearchResultModel;

    open spec fn view(&self) -> SearchResultModel {
        SearchResultModel {
            url: self.url@,
            site_name: self.site_name@,
            text_content: self.text_content@,
        }
    }
}

impl View for SearchOutput {
    type V = Seq<SearchResultModel>;

    open spec fn view(&self) -> Seq<SearchResultModel> {
        self.results@.map_values(|r: SearchResult| r@)
    }
}

/// The outcome of a search step, as a mathematical value.
pub open spec fn search_outcome(r: Result<SearchOutput, SearchError>) -> Result<
    Seq<SearchResultModel>,
    SearchErrorModel,
> {
    match r {
        Ok(output) => Ok(output@),
        Err(e) => Err(e@),
    }
}

/// `text` cut to its first `size` bytes, where that many bytes end on a
/// character of the text; the whole text otherwise.
pub open spec fn clipped(text: Seq<char>, size: int) -> Seq<char> {
    if splits_at(text, size) {
        text_before(text, size)
    } else {
        text
    }
}

/// A result with its text clipped to `size` bytes.
pub open spec fn clipped_result(r: SearchResultModel, size: int) -> SearchResultModel {
    SearchResultModel { url: r.url, site_name: r.site_name, text_content: clipped(r.text_content, size) }
}

/// The first `max_results` of `results`, each clipped to `size` bytes.
pub open spec fn limited(results: Seq<SearchResultModel>, max_results: int, size: int) -> Seq<
    SearchResultModel,
> {
    let kept = if max_results < results.len() {
        results.take(max_results)
    } else {
        results
    };
    kept.map_values(|r: SearchResultModel| clipped_result(r, size))
}

/// The texts of all results, one after the other.
pub open spec fn joined_text(results: Seq<SearchResultModel>) -> Seq<char>
    decreases results.len(),
{
    if results.len() == 0 {
        Seq::empty()
    } else {
        joined_text(results.drop_last()) + results.last().text_content
    }
}

/// What introduces the results where the caller gives no introduction.
pub open spec fn default_head() -> Seq<char> {
    "The following are search results I found on the internet:"@
}

/// What follows the results where the caller gives no closing words.
pub open spec fn default_tail() -> Seq<char> {
    "To sum up them up: "@
}

/// The text that asks a model for a summary: the introduction, the texts of
/// the results and the closing words, a blank line between them, trimmed.
pub open spec fn summary_input(
    results: Seq<SearchResultModel>,
    head: Option<Seq<char>>,
    tail: Option<Seq<char>>,
) -> Seq<char> {
    trim_spec(
        (match head {
            Some(h) => h,
            None => default_head(),
        }) + "\n\n"@ + joined_text(results) + "\n\n"@ + (match tail {
            Some(t) => t,
            None => default_tail(),
        }),
    )
}

/// The view of an optional string slice.
pub open spec fn opt_str(o: Option<&str>) -> Option<Seq<char>> {
    match o {
        Some(s) => Some(s@),
        None => None,
    }
}

/// Whether results may be summarised: not by a model that runs for
/// embeddings only.
pub fn summary_allowed(embeddings: bool) -> (r: Result<(), SearchError>)
    ensures
        embeddings ==> r is Err && r->Err_0@ == SearchErrorModel::Search(
            "Summarization is not supported in the EMBEDDINGS running mode."@,
        ),
        !embeddings ==> r is Ok,
{
    if embeddings {
        Err(
            SearchError::Search(
                String::from_str("Summarization is not supported in the EMBEDDINGS running mode."),
            ),
        )
    } else {
        Ok(())
    }
}

/// Clips `text` to `size` bytes.
pub fn clip(text: &str, size: usize) -> (r: String)
    ensures
        r@ == clipped(text@, size as int),
{
    proof {
        encode_utf8_valid_utf8(text@);
    }
    if text.is_char_boundary(size) {
        let (head, _) = split_text(text, size);
        head
    } else {
        String::from_str(text)
    }
}

impl SearchOutput {
    /// Keeps the first `max_results` results and clips the text of each to
    /// `size_per_result` bytes.
    pub fn limit(&mut self, max_results: u8, size_per_result: u16)
        ensures
            final(self)@ == limited(old(self)@, max_results as int, size_per_result as int),
    {
        let ghost before = self@;
        let keep: usize = if (max_results as usize) < self.results.len() {
            max_results as usize
        } else {
            self.results.len()
        };
        let ghost kept = if max_results < before.len() {
            before.take(max_results as int)
        } else {
            before
        };
        let mut out: Vec<SearchResult> = Vec::new();
        let mut i: usize = 0;
        while i < keep
            invariant
                i <= keep <= self.results.len(),
                before == self@,
                kept.len() == keep,
                forall|j: int| 0 <= j < keep ==> kept[j] == before[j],
                out@.len() == i,
                forall|j: int|
                    0 <= j < i ==> (#[trigger] out@[j])@ == clipped_result(
                        before[j],
                        size_per_result as int,
                    ),
            decreases keep - i,
        {
            let r = &self.results[i];
            let clipped = SearchResult {
                url: r.url.clone(),
                site_name: r.site_name.clone(),
                text_content: clip(r.text_content.as_str(), size_per_result as usize),
            };
            out.push(clipped);
            i = i + 1;
        }
        self.results = out;
        assert(self@ =~= limited(before, max_results as int, size_per_result as int));
    }

    /// The text that asks a model to summarise these results, between
    /// `head_prompt` and `tail_prompt` or their defaults.
    pub fn summary_prompt(&self, head_prompt: Option<&str>, tail_prompt: Option<&str>) -> (r:
        String)
        ensures
            r@ == summary_input(self@, opt_str(head_prompt), opt_str(tail_prompt)),
    {
        let mut texts = String::new();
        let mut i: usize = 0;
        while i < self.results.len()
            invariant
                i <= self.results.len(),
                texts@ == joined_text(self@.subrange(0, i as int)),
            decreases self.results.len() - i,
        {
            proof {
                assert(self@.subrange(0, i + 1).drop_last() == self@.subrange(0, i as int));
            }
            push(&mut texts, self.results[i].text_content.as_str());
            i = i + 1;
        }
        proof {
            assert(self@.subrange(0, i as int) == self@);
        }
        let head = match head_prompt {
            Some(h) => h,
            None => "The following are search results I found on the internet:",
        };
        let tail = match tail_prompt {
            Some(t) => t,
            None => "To sum up them up: ",
        };
        let mut input = String::new();
        push(&mut input, head);
        push(&mut input, "\n\n");
        push(&mut input, texts.as_str());
        push(&mut input, "\n\n");
        push(&mut input, tail);
        String::from_str(trim(input.as_str()))
    }
}

/// The outcome of preparing a request, as a mathematical value.
pub open spec fn request_outcome(r: Result<SearchRequest, SearchError>) -> Result<
    SearchRequestModel,
    SearchErrorModel,
> {
    match r {
        Ok(request) => Ok(request@),
        Err(e) => Err(e@),
    }
}

/// A search failure described by `prefix` followed by `detail`.
pub fn failure(prefix: &str, detail: &str) -> (r: SearchError)
    ensures
        r@ == SearchErrorModel::Search(prefix@ + detail@),
{
    let mut text = String::from_str(prefix);
    push(&mut text, detail);
    SearchError::Search(text)
}

/// A search engine: it knows the request to send for an input and how to read
/// the raw results that come back. Sending the request is left to the caller.
pub trait SearchEngine {
    /// How many additional headers the engine holds.
    spec fn header_count(&self) -> nat;

    /// The request for `input`, or why none can be made.
    spec fn request_for(&self, input: Seq<char>) -> Result<SearchRequestModel, SearchErrorModel>;

    /// The results read from a raw document, or why it cannot be read.
    spec fn parsed(&self, raw: serde_json::Value) -> Result<
        Seq<SearchResultModel>,
        SearchErrorModel,
    >;

    /// The most results that the engine hands on.
    spec fn result_limit(&self) -> u8;

    /// The size, in bytes, that the text of a result is clipped to.
    spec fn size_limit(&self) -> u16;

    /// How many additional headers the engine holds.
    fn additional_header_count(&self) -> (r: usize)
        ensures
            r == self.header_count(),
    ;

    /// Prepares the request for `input`.
    fn request(&self, input: &str) -> (r: Result<SearchRequest, SearchError>)
        requires
            self.header_count() <= MAX_HEADERS,
        ensures
            request_outcome(r) == self.request_for(input@),
    ;

    /// Reads the results from the raw document that the engine's endpoint
    /// returned.
    fn parse_raw_results(&self, raw_results: &serde_json::Value) -> (r: Result<
        SearchOutput,
        SearchError,
    >)
        ensures
            search_outcome(r) == self.parsed(*raw_results),
    ;

    fn max_search_results(&self) -> (r: u8)
        ensures
            r == self.result_limit(),
    ;

    fn size_per_result(&self) -> (r: u16)
        ensures
            r == self.size_limit(),
    ;
}

/// The text of a failure.
pub open spec fn failure_text(e: SearchErrorModel) -> Seq<char> {
    match e {
        SearchErrorModel::Operation(t) => t,
        SearchErrorModel::Search(t) => t,
    }
}

/// The results that `engine` makes of a response body: the body is parsed as
/// JSON, read by the engine, cut to the engine's limits.
pub open spec fn results_of<E: SearchEngine>(engine: &E, body: Seq<char>) -> Result<
    Seq<SearchResultModel>,
    SearchErrorModel,
> {
    match json_parse(body) {
        Err(why) => Err(SearchErrorModel::Search("When converting to a JSON object: "@ + why)),
        Ok(raw) => match engine.parsed(raw) {
            Err(e) => Err(
                SearchErrorModel::Search("When calling parse_into_results: "@ + failure_text(e)),
            ),
            Ok(results) => Ok(
                limited(results, engine.result_limit() as int, engine.size_limit() as int),
            ),
        },
    }
}

/// Turns the body of a response into results.
pub fn read_results<E: SearchEngine>(engine: &E, body: &str) -> (r: Result<
    SearchOutput,
    SearchError,
>)
    ensures
        search_outcome(r) == results_of(engine, body@),
{
    let raw = match parse(body) {
        Ok(raw) => raw,
        Err(e) => {
            let why = crate::json::describe(&e);
            return Err(failure("When converting to a JSON object: ", why.as_str()));
        },
    };
    let mut output = match engine.parse_raw_results(&raw) {
        Ok(output) => output,
        Err(e) => {
            let why = e.message();
            return Err(failure("When calling parse_into_results: ", why.as_str()));
        },
    };
    output.limit(engine.max_search_results(), engine.size_per_result());
    Ok(output)
}

/// What the network reported since the last step of a search.
#[derive(Debug)]
pub enum SearchEvent {
    /// Nothing yet: the search begins.
    Started,
    /// The request could not be sent, or no response came; the text says why.
    SendFailed(String),
    /// A response came, with this content length in its header.
    Responded(Option<u64>),
    /// The body of the response could not be read; the text says why.
    BodyFailed(String),
    /// The body of the response.
    BodyRead(String),
}

/// What a search does next.
#[derive(Debug)]
pub enum SearchStep {
    /// Post this request and report the response or the failure.
    Send(SearchRequest),
    /// Read the body of the response and report it.
    ReadBody,
    /// The search is over.
    Done(Result<SearchOutput, SearchError>),
}

/// A step of a search as a mathematical value.
pub enum SearchStepModel {
    Send(SearchRequestModel),
    ReadBody,
    Done(Result<Seq<SearchResultModel>, SearchErrorModel>),
}

impl View for SearchStep {
    type V = SearchStepModel;

    open spec fn view(&self) -> SearchStepModel {
        match *self {
            SearchStep::Send(request) => SearchStepModel::Send(request@),
            SearchStep::ReadBody => SearchStepModel::ReadBody,
            SearchStep::Done(r) => SearchStepModel::Done(search_outcome(r)),
        }
    }
}

/// What a search for `input` does after `event`. A request that cannot be
/// made, a failed exchange and an empty or unsized response end the search
/// with a failure; a body ends it with the results read from it.
pub open spec fn next_step<E: SearchEngine>(engine: &E, input: Seq<char>, event: SearchEvent) -> SearchStepModel {
    match event {
        SearchEvent::Started => match engine.request_for(input) {
            Ok(request) => SearchStepModel::Send(request),
            Err(e) => SearchStepModel::Done(Err(e)),
        },
        SearchEvent::SendFailed(why) => SearchStepModel::Done(
            Err(SearchErrorModel::Search("When recieving response: "@ + why@)),
        ),
        SearchEvent::Responded(None) => SearchStepModel::Done(
            Err(
                SearchErrorModel::Search(
                    "Content length field not found: "@ + "Content length returned None"@,
                ),
            ),
        ),
        SearchEvent::Responded(Some(length)) => if length == 0 {
            SearchStepModel::Done(
                Err(
                    SearchErrorModel::Search(
                        "Unexpected content length: "@ + "Empty response from server"@,
                    ),
                ),
            )
        } else {
            SearchStepModel::ReadBody
        },
        SearchEvent::BodyFailed(why) => SearchStepModel::Done(
            Err(SearchErrorModel::Search("When accessing response body: "@ + why@)),
        ),
        SearchEvent::BodyRead(body) => SearchStepModel::Done(results_of(engine, body@)),
    }
}

/// Decides the next step of a search for `input` after `event`.
pub fn advance<E: SearchEngine>(engine: &E, input: &str, event: SearchEvent) -> (r: SearchStep)
    requires
        engine.header_count() <= MAX_HEADERS,
    ensures
        r@ == next_step(engine, input@, event),
{
    match event {
        SearchEvent::Started => match engine.request(input) {
            Ok(request) => SearchStep::Send(request),
            Err(e) => SearchStep::Done(Err(e)),
        },
        SearchEvent::SendFailed(why) => SearchStep::Done(
            Err(failure("When recieving response: ", why.as_str())),
        ),
        SearchEvent::Responded(None) => SearchStep::Done(
            Err(failure("Content length field not found: ", "Content length returned None")),
        ),
        SearchEvent::Responded(Some(length)) => if length == 0 {
            SearchStep::Done(
                Err(failure("Unexpected content length: ", "Empty response from server")),
            )
        } else {
            SearchStep::ReadBody
        },
        SearchEvent::BodyFailed(why) => SearchStep::Done(
            Err(failure("When accessing response body: ", why.as_str())),
        ),
        SearchEvent::BodyRead(body) => SearchStep::Done(read_results(engine, body.as_str())),
    }
}

} // verus!
