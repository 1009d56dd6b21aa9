use chat_prompts::headers::Headers;

fn pair(name: &str, value: &str) -> (String, String) {
    (name.to_string(), value.to_string())
}

#[test]
fn new_headers_are_empty() {
    let headers = Headers::new();
    assert_eq!(headers.len(), 0);
    assert!(headers.pairs().is_empty());
    assert!(!headers.contains_key("Accept"));
}

#[test]
fn insert_sets_and_replaces() {
    let mut headers = Headers::new();
    headers.insert("Accept".to_string(), "text/html".to_string());
    headers.insert("X-Trace".to_string(), "1".to_string());
    assert!(headers.contains_key("Accept"));
    assert!(headers.contains_key("X-Trace"));
    assert!(!headers.contains_key("accept"));
    assert_eq!(headers.len(), 2);

    headers.insert("Accept".to_string(), "application/json".to_string());
    assert_eq!(headers.len(), 2);
    assert_eq!(headers.pairs(), &vec![pair("Accept", "application/json"), pair("X-Trace", "1")]);
}

#[test]
fn extend_prefers_the_headers_given_last() {
    let mut base = Headers::new();
    base.insert("A".to_string(), "1".to_string());
    base.insert("B".to_string(), "2".to_string());
    let mut more = Headers::new();
    more.insert("B".to_string(), "20".to_string());
    more.insert("C".to_string(), "30".to_string());

    base.extend(more);
    assert_eq!(base.pairs(), &vec![pair("A", "1"), pair("B", "20"), pair("C", "30")]);
}

#[test]
fn extend_by_nothing_changes_nothing() {
    let mut base = Headers::new();
    base.insert("A".to_string(), "1".to_string());
    base.extend(Headers::new());
    assert_eq!(base.pairs(), &vec![pair("A", "1")]);
}

#[test]
fn a_clone_holds_the_same_headers() {
    let mut headers = Headers::new();
    headers.insert("A".to_string(), "1".to_string());
    let mut copy = headers.clone();
    assert_eq!(copy.pairs(), headers.pairs());
    copy.insert("A".to_string(), "2".to_string());
    assert_eq!(headers.pairs(), &vec![pair("A", "1")]);
    assert_eq!(copy.pairs(), &vec![pair("A", "2")]);
}
