use chat_prompts::headers::Headers;
use chat_prompts::request::{SearchQuery, SearchRequest};
use chat_prompts::search::bing_search::{BingSearch, BingSearchBuilder};
use chat_prompts::search::tavily_search::{TavilySearch, TavilySearchBuilder};
use chat_prompts::search::{
    advance, clip, failure, read_results, summary_allowed, ContentType, SearchEngine, SearchError,
    SearchEvent, SearchOutput, SearchResult, SearchStep,
};

fn result(url: &str, site_name: &str, text_content: &str) -> SearchResult {
    SearchResult {
        url: url.to_string(),
        site_name: site_name.to_string(),
        text_content: text_content.to_string(),
    }
}

fn fields(output: &SearchOutput) -> Vec<(String, String, String)> {
    output
        .results
        .iter()
        .map(|r| (r.url.clone(), r.site_name.clone(), r.text_content.clone()))
        .collect()
}

fn triple(url: &str, site_name: &str, text_content: &str) -> (String, String, String) {
    (url.to_string(), site_name.to_string(), text_content.to_string())
}

fn search(text: &str) -> SearchError {
    SearchError::Search(text.to_string())
}

fn json(text: &str) -> serde_json::Value {
    serde_json::from_str(text).unwrap()
}

fn header(name: &str, value: &str) -> Headers {
    let mut headers = Headers::new();
    headers.insert(name.to_string(), value.to_string());
    headers
}

fn sent(step: SearchStep) -> SearchRequest {
    match step {
        SearchStep::Send(request) => request,
        other => panic!("no request: {:?}", other),
    }
}

fn done(step: SearchStep) -> Result<SearchOutput, SearchError> {
    match step {
        SearchStep::Done(outcome) => outcome,
        other => panic!("not done: {:?}", other),
    }
}

#[test]
fn content_type_is_json() {
    assert_eq!(ContentType::JSON.to_string(), "application/json");
}

#[test]
fn tavily_defaults() {
    let engine = TavilySearch::default();
    assert_eq!(engine.api_key(), "");
    assert!(!engine.includes_answer());
    assert!(!engine.includes_images());
    assert!(!engine.includes_raw_content());
    assert_eq!(engine.max_search_results(), 5);
    assert_eq!(engine.search_depth(), "advanced");
    assert_eq!(engine.size_per_result(), 300);
    assert_eq!(engine.endpoint(), "https://api.tavily.com/search");
    assert!(engine.additional_headers().is_none());
}

#[test]
fn tavily_builder_sets_each_field() {
    let engine = TavilySearchBuilder::new("key")
        .include_answer(true)
        .include_images(true)
        .include_raw_content(true)
        .with_max_results(3)
        .with_search_depth("basic".to_string())
        .with_size_per_result(120)
        .with_endpoint("https://example.com/search".to_string())
        .with_additional_headers(header("X-Trace", "1"))
        .build();
    assert_eq!(engine.api_key(), "key");
    assert!(engine.includes_answer());
    assert!(engine.includes_images());
    assert!(engine.includes_raw_content());
    assert_eq!(engine.max_search_results(), 3);
    assert_eq!(engine.search_depth(), "basic");
    assert_eq!(engine.size_per_result(), 120);
    assert_eq!(engine.endpoint(), "https://example.com/search");
    assert_eq!(
        engine.additional_headers().unwrap().pairs(),
        &vec![("X-Trace".to_string(), "1".to_string())]
    );
}

#[test]
fn tavily_builder_keeps_what_it_does_not_set() {
    let engine = TavilySearchBuilder::new("key").with_max_results(9).build();
    assert_eq!(engine.api_key(), "key");
    assert_eq!(engine.max_search_results(), 9);
    assert_eq!(engine.search_depth(), "advanced");
    assert_eq!(engine.size_per_result(), 300);
    assert_eq!(engine.endpoint(), "https://api.tavily.com/search");
    assert!(!engine.includes_answer());

    let replaced = TavilySearchBuilder::new("key")
        .with_additional_headers(header("A", "1"))
        .with_additional_headers(header("B", "2"))
        .build();
    assert_eq!(
        replaced.additional_headers().unwrap().pairs(),
        &vec![("B".to_string(), "2".to_string())]
    );
}

#[test]
fn tavily_request_carries_the_query() {
    let engine = TavilySearchBuilder::new("key").include_answer(true).with_max_results(2).build();
    let request = engine.request("rust verification").unwrap();
    assert_eq!(request.endpoint, "https://api.tavily.com/search");
    assert!(request.headers.pairs().is_empty());
    match request.query {
        SearchQuery::Tavily {
            api_key,
            include_answer,
            include_images,
            query,
            max_results,
            include_raw_content,
            search_depth,
        } => {
            assert_eq!(api_key, "key");
            assert!(include_answer);
            assert!(!include_images);
            assert_eq!(query, "rust verification");
            assert_eq!(max_results, 2);
            assert!(!include_raw_content);
            assert_eq!(search_depth, "advanced");
        }
        other => panic!("not a Tavily query: {:?}", other),
    }
}

#[test]
fn tavily_request_checks_endpoint_then_headers_then_key() {
    let bad_all = TavilySearchBuilder::new("")
        .with_endpoint("not a url".to_string())
        .with_additional_headers(header("bad name", "v"))
        .build();
    assert_eq!(
        bad_all.request("q").unwrap_err(),
        search("When parsing endpoint url: Malformed endpoint url")
    );

    let bad_headers =
        TavilySearchBuilder::new("").with_additional_headers(header("bad name", "v")).build();
    assert_eq!(
        bad_headers.request("q").unwrap_err(),
        search("On converting headers: Failed to convert headers from HashMaps to HeaderMaps")
    );

    let bad_value =
        TavilySearchBuilder::new("key").with_additional_headers(header("X-A", "line\nbreak")).build();
    assert_eq!(
        bad_value.request("q").unwrap_err(),
        search("On converting headers: Failed to convert headers from HashMaps to HeaderMaps")
    );

    let no_key = TavilySearchBuilder::new("").build();
    assert_eq!(
        no_key.request("q").unwrap_err(),
        search("Fail to perform search. API key is empty.")
    );
}

#[test]
fn tavily_reads_its_raw_results() {
    let engine = TavilySearch::default();
    let raw = json(
        "{\"results\":[{\"url\":\"https://a.example\",\"title\":\"A\",\"content\":\"alpha\"},{\"url\":\"https://b.example\",\"content\":7}]}",
    );
    let output = engine.parse_raw_results(&raw).unwrap();
    assert_eq!(
        fields(&output),
        vec![
            triple("\"https://a.example\"", "\"A\"", "\"alpha\""),
            triple("\"https://b.example\"", "null", "7"),
        ]
    );

    let empty = engine.parse_raw_results(&json("{\"results\":[]}")).unwrap();
    assert!(empty.results.is_empty());
}

#[test]
fn tavily_refuses_a_document_without_results() {
    let engine = TavilySearch::default();
    assert_eq!(
        engine.parse_raw_results(&json("{\"answer\":\"x\"}")).unwrap_err(),
        search("No results returned from server")
    );
    assert_eq!(
        engine.parse_raw_results(&json("{\"results\":{\"url\":\"u\"}}")).unwrap_err(),
        search("No results returned from server")
    );
    assert_eq!(
        engine.parse_raw_results(&json("[1,2]")).unwrap_err(),
        search("No results returned from server")
    );
}

#[test]
fn bing_builder_carries_the_key_as_a_header() {
    let engine = BingSearchBuilder::new("secret").build();
    assert_eq!(engine.max_search_results(), 5);
    assert_eq!(engine.size_per_result(), 300);
    assert_eq!(engine.endpoint(), "https://api.bing.microsoft.com/v7.0/search");
    assert_eq!(
        engine.additional_headers().unwrap().pairs(),
        &vec![("Ocp-Apim-Subscription-Key".to_string(), "secret".to_string())]
    );
    assert!(BingSearch::default().additional_headers().is_none());
}

#[test]
fn bing_builder_sets_each_field() {
    let engine = BingSearchBuilder::new("secret")
        .with_max_results(7)
        .with_size_per_result(50)
        .with_endpoint("https://example.com/bing".to_string())
        .build();
    assert_eq!(engine.max_search_results(), 7);
    assert_eq!(engine.size_per_result(), 50);
    assert_eq!(engine.endpoint(), "https://example.com/bing");
}

#[test]
fn bing_builder_merges_additional_headers() {
    let mut more = Headers::new();
    more.insert("X-Trace".to_string(), "1".to_string());
    more.insert("Ocp-Apim-Subscription-Key".to_string(), "other".to_string());
    let engine = BingSearchBuilder::new("secret")
        .with_additional_headers(more)
        .with_additional_headers(header("X-Trace", "2"))
        .build();
    assert_eq!(
        engine.additional_headers().unwrap().pairs(),
        &vec![
            ("Ocp-Apim-Subscription-Key".to_string(), "other".to_string()),
            ("X-Trace".to_string(), "2".to_string()),
        ]
    );
}

#[test]
fn bing_request_carries_the_query() {
    let engine = BingSearchBuilder::new("secret").with_max_results(4).build();
    let request = engine.request("verus").unwrap();
    assert_eq!(request.endpoint, "https://api.bing.microsoft.com/v7.0/search");
    assert_eq!(
        request.headers.pairs(),
        &vec![("Ocp-Apim-Subscription-Key".to_string(), "secret".to_string())]
    );
    match request.query {
        SearchQuery::Bing { count, q, response_filter } => {
            assert_eq!(count, 4);
            assert_eq!(q, "verus");
            assert_eq!(response_filter, "Webpages");
        }
        other => panic!("not a Bing query: {:?}", other),
    }
}

#[test]
fn bing_request_checks_endpoint_then_key_then_headers() {
    let bad_endpoint = BingSearchBuilder::new("secret").with_endpoint("::".to_string()).build();
    assert_eq!(
        bad_endpoint.request("q").unwrap_err(),
        search("When parsing endpoint url: Malformed endpoint url")
    );

    assert_eq!(
        BingSearch::default().request("q").unwrap_err(),
        search(
            "Fail to perform search. Not found 'Ocp-Apim-Subscription-Key' in additional headers."
        )
    );

    let bad_headers =
        BingSearchBuilder::new("secret").with_additional_headers(header("bad name", "v")).build();
    assert_eq!(
        bad_headers.request("q").unwrap_err(),
        search("On converting headers: Failed to convert headers from HashMaps to HeaderMaps")
    );
}

#[test]
fn bing_reads_its_raw_results() {
    let engine = BingSearch::default();
    let raw = json(
        "{\"webPages\":{\"value\":[{\"url\":\"https://a.example\",\"siteName\":\"A\",\"snippet\":\"alpha\"},{\"name\":\"B\"}]}}",
    );
    let output = engine.parse_raw_results(&raw).unwrap();
    assert_eq!(
        fields(&output),
        vec![triple("\"https://a.example\"", "\"A\"", "\"alpha\""), triple("null", "null", "null")]
    );
}

#[test]
fn bing_refuses_a_document_without_web_pages() {
    let engine = BingSearch::default();
    assert_eq!(
        engine.parse_raw_results(&json("{\"images\":{}}")).unwrap_err(),
        SearchError::Operation("no webpages found when parsing query.".to_string())
    );
    assert_eq!(
        engine.parse_raw_results(&json("{\"webPages\":[1]}")).unwrap_err(),
        SearchError::Operation("no webpages found when parsing query.".to_string())
    );
    assert_eq!(
        engine.parse_raw_results(&json("{\"webPages\":{\"value\":3}}")).unwrap_err(),
        SearchError::Operation(
            "could not convert the \"value\" field of \"webPages\" to an array".to_string()
        )
    );
}

#[test]
fn clip_cuts_only_between_characters() {
    assert_eq!(clip("hello", 3), "hel");
    assert_eq!(clip("hello", 5), "hello");
    assert_eq!(clip("hello", 6), "hello");
    assert_eq!(clip("hello", 0), "");
    assert_eq!(clip("héllo", 2), "héllo");
    assert_eq!(clip("héllo", 3), "hé");
}

#[test]
fn limit_keeps_the_first_results_and_clips_each() {
    let mut output = SearchOutput {
        results: vec![
            result("u1", "s1", "abcdefgh"),
            result("u2", "s2", "ab"),
            result("u3", "s3", "ééé"),
            result("u4", "s4", "dropped"),
        ],
    };
    output.limit(3, 3);
    assert_eq!(
        fields(&output),
        vec![triple("u1", "s1", "abc"), triple("u2", "s2", "ab"), triple("u3", "s3", "ééé")]
    );

    let mut few = SearchOutput { results: vec![result("u", "s", "text")] };
    few.limit(5, 300);
    assert_eq!(fields(&few), vec![triple("u", "s", "text")]);

    let mut none = SearchOutput { results: vec![result("u", "s", "text")] };
    none.limit(0, 300);
    assert!(none.results.is_empty());
}

#[test]
fn summary_prompt_joins_the_results_between_head_and_tail() {
    let output = SearchOutput { results: vec![result("u1", "s1", "one "), result("u2", "s2", "two")] };
    assert_eq!(
        output.summary_prompt(Some("Found:"), Some("Summary:")),
        "Found:\n\none two\n\nSummary:"
    );
    assert_eq!(
        output.summary_prompt(None, None),
        "The following are search results I found on the internet:\n\none two\n\nTo sum up them up:"
    );
    assert_eq!(output.summary_prompt(Some("  Found:"), Some("Summary:  ")), "Found:\n\none two\n\nSummary:");
    let empty = SearchOutput { results: Vec::new() };
    assert_eq!(empty.summary_prompt(Some(""), Some("")), "");
}

#[test]
fn read_results_parses_reads_and_limits() {
    let engine = TavilySearchBuilder::new("key").with_max_results(1).with_size_per_result(4).build();
    let body = "{\"results\":[{\"url\":\"u\",\"title\":\"t\",\"content\":\"content\"},{\"url\":\"v\"}]}";
    let output = read_results(&engine, body).unwrap();
    assert_eq!(fields(&output), vec![triple("\"u\"", "\"t\"", "\"con")]);
}

#[test]
fn read_results_reports_what_went_wrong() {
    let engine = TavilySearch::default();
    match read_results(&engine, "{not json") {
        Err(SearchError::Search(why)) => {
            assert!(why.starts_with("When converting to a JSON object: "));
            assert!(why.contains("line 1 column 2"));
        }
        other => panic!("unexpected outcome: {:?}", other),
    }
    assert_eq!(
        read_results(&engine, "{}").unwrap_err(),
        search("When calling parse_into_results: No results returned from server")
    );
    let bing = BingSearch::default();
    assert_eq!(
        read_results(&bing, "{}").unwrap_err(),
        search("When calling parse_into_results: no webpages found when parsing query.")
    );
}

#[test]
fn a_search_runs_step_by_step() {
    let engine = TavilySearchBuilder::new("key").build();
    let request = sent(advance(&engine, "q", SearchEvent::Started));
    assert_eq!(request.endpoint, "https://api.tavily.com/search");

    assert!(matches!(
        advance(&engine, "q", SearchEvent::Responded(Some(120))),
        SearchStep::ReadBody
    ));

    let body = "{\"results\":[{\"url\":\"u\",\"title\":\"t\",\"content\":\"c\"}]}".to_string();
    let output = done(advance(&engine, "q", SearchEvent::BodyRead(body))).unwrap();
    assert_eq!(fields(&output), vec![triple("\"u\"", "\"t\"", "\"c\"")]);
}

#[test]
fn a_search_ends_on_each_failure() {
    let engine = TavilySearchBuilder::new("").build();
    assert_eq!(
        done(advance(&engine, "q", SearchEvent::Started)).unwrap_err(),
        search("Fail to perform search. API key is empty.")
    );
    assert_eq!(
        done(advance(&engine, "q", SearchEvent::SendFailed("timed out".to_string()))).unwrap_err(),
        search("When recieving response: timed out")
    );
    assert_eq!(
        done(advance(&engine, "q", SearchEvent::Responded(Some(0)))).unwrap_err(),
        search("Unexpected content length: Empty response from server")
    );
    assert_eq!(
        done(advance(&engine, "q", SearchEvent::Responded(None))).unwrap_err(),
        search("Content length field not found: Content length returned None")
    );
    assert_eq!(
        done(advance(&engine, "q", SearchEvent::BodyFailed("reset".to_string()))).unwrap_err(),
        search("When accessing response body: reset")
    );
}

#[test]
fn failures_carry_their_text() {
    assert_eq!(failure("a: ", "b"), search("a: b"));
    assert_eq!(search("x").message(), "x");
    assert_eq!(SearchError::Operation("y".to_string()).message(), "y");
}

#[test]
fn a_summary_is_refused_in_the_embeddings_mode() {
    assert_eq!(
        summary_allowed(true),
        Err(search("Summarization is not supported in the EMBEDDINGS running mode."))
    );
    assert_eq!(summary_allowed(false), Ok(()));
}
