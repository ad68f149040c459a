use bgg_client::request::RequestDescriptor;

#[test]
fn builds_url_from_base_and_endpoint() {
    let descriptor = RequestDescriptor::build("hot", &[]);
    assert_eq!(
        descriptor.request_url("https://boardgamegeek.com/xmlapi2"),
        "https://boardgamegeek.com/xmlapi2/hot"
    );
}

#[test]
fn keeps_query_parameters_in_order() {
    let descriptor = RequestDescriptor::build(
        "collection",
        &[
            ("username", "somebody".to_string()),
            ("brief", "1".to_string()),
        ],
    );
    assert_eq!(descriptor.endpoint, "collection");
    assert_eq!(
        descriptor.query,
        vec![
            ("username".to_string(), "somebody".to_string()),
            ("brief".to_string(), "1".to_string()),
        ]
    );
}

#[test]
fn clone_reissues_identical_request() {
    let descriptor = RequestDescriptor::build(
        "search",
        &[("query", "carcassonne".to_string())],
    );
    let copy = descriptor.clone();
    assert_eq!(copy, descriptor);
}
