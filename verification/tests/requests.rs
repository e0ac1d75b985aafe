use nrfcloud::messages::ListMessagesParams;
use nrfcloud::request::{Expect, Request};
use nrfcloud::NRFCloudClient;

fn pair(name: &str, value: &str) -> (String, String) {
    (name.to_string(), value.to_string())
}

fn no_query() -> Vec<(String, String)> {
    Vec::new()
}

#[test]
fn new_handle_talks_to_the_default_base_url() {
    let client = NRFCloudClient::new("abc123");
    let request = client.get("/account");
    assert_eq!(request.url, "https://api.nrfcloud.com/v1/account");
}

#[test]
fn get_builds_a_text_request_without_query() {
    let client = NRFCloudClient::new("abc123");
    let request = client.get("/devices");
    assert_eq!(
        request,
        Request {
            url: "https://api.nrfcloud.com/v1/devices".to_string(),
            header_name: "Authorization".to_string(),
            header_value: "Bearer abc123".to_string(),
            query: no_query(),
            expect: Expect::Text,
        }
    );
}

#[test]
fn get_json_builds_a_json_request_without_query() {
    let client = NRFCloudClient::new("abc123");
    let request = client.get_json("/devices");
    assert_eq!(request.url, "https://api.nrfcloud.com/v1/devices");
    assert_eq!(request.header_name, "Authorization");
    assert_eq!(request.header_value, "Bearer abc123");
    assert_eq!(request.query, no_query());
    assert_eq!(request.expect, Expect::Json);
}

#[test]
fn get_with_params_keeps_the_parameters_in_order() {
    let client = NRFCloudClient::new("t");
    let params = vec![pair("b", "2"), pair("a", "1"), pair("b", "3")];
    let request = client.get_with_params("/x", params);
    assert_eq!(request.url, "https://api.nrfcloud.com/v1/x");
    assert_eq!(request.query, vec![pair("b", "2"), pair("a", "1"), pair("b", "3")]);
    assert_eq!(request.expect, Expect::Text);
}

#[test]
fn get_json_with_params_keeps_the_parameters_in_order() {
    let client = NRFCloudClient::new("t");
    let request = client.get_json_with_params("/x", vec![pair("k", "v w"), pair("", "")]);
    assert_eq!(request.query, vec![pair("k", "v w"), pair("", "")]);
    assert_eq!(request.header_value, "Bearer t");
    assert_eq!(request.expect, Expect::Json);
}

#[test]
fn with_base_url_replaces_the_base_and_keeps_the_token() {
    let client = NRFCloudClient::new("abc123").with_base_url("http://127.0.0.1:8080");
    let request = client.get("/messages");
    assert_eq!(request.url, "http://127.0.0.1:8080/messages");
    assert_eq!(request.header_value, "Bearer abc123");
}

#[test]
fn endpoint_is_appended_as_it_is() {
    let client = NRFCloudClient::new("t").with_base_url("http://host/v1/");
    assert_eq!(client.get("/a").url, "http://host/v1//a");
    assert_eq!(client.get("").url, "http://host/v1/");
    assert_eq!(client.get("a b").url, "http://host/v1/a b");
}

#[test]
fn every_request_carries_the_token_unchanged() {
    let tokens = ["abc123", "", " ", "Bearer x", "t\u{e9}k\u{20ac}n", "a b\tc", "x\ny"];
    for token in tokens {
        let expected = format!("Bearer {}", token);
        let client = NRFCloudClient::new(token);
        let params = ListMessagesParams::default();
        let requests = vec![
            client.get("/a"),
            client.get_json("/a"),
            client.get_with_params("/a", vec![pair("k", "v")]),
            client.get_json_with_params("/a", vec![pair("k", "v")]),
            client.list_messages(&params),
        ];
        for request in requests {
            assert_eq!(request.header_name, "Authorization");
            assert_eq!(request.header_value, expected);
        }
        let moved = client.with_base_url("http://other");
        assert_eq!(moved.get("/a").header_value, expected);
        assert_eq!(moved.list_messages(&params).header_value, expected);
    }
}

#[test]
fn list_messages_asks_for_the_messages_path_as_json() {
    let client = NRFCloudClient::new("abc123");
    let request = client.list_messages(&ListMessagesParams::default());
    assert_eq!(
        request,
        Request {
            url: "https://api.nrfcloud.com/v1/messages".to_string(),
            header_name: "Authorization".to_string(),
            header_value: "Bearer abc123".to_string(),
            query: no_query(),
            expect: Expect::Json,
        }
    );
}

#[test]
fn list_messages_with_page_limit_goes_out_as_one_parameter() {
    let client = NRFCloudClient::new("abc123").with_base_url("http://127.0.0.1:8080");
    let mut params = ListMessagesParams::default();
    params.pageLimit = Some(10);
    let request = client.list_messages(&params);
    assert_eq!(request.url, "http://127.0.0.1:8080/messages");
    assert_eq!(request.query, vec![pair("pageLimit", "10")]);
    assert_eq!(request.header_value, "Bearer abc123");
    assert_eq!(request.expect, Expect::Json);
}

#[test]
fn request_goes_on_the_wire_with_its_query_string_and_header() {
    let client = NRFCloudClient::new("abc123").with_base_url("http://127.0.0.1:8080");
    let mut params = ListMessagesParams::default();
    params.pageLimit = Some(10);
    let request = client.list_messages(&params);
    let wire = reqwest::Client::new()
        .get(&request.url)
        .header(&request.header_name, &request.header_value)
        .query(&request.query)
        .build()
        .unwrap();
    assert_eq!(wire.method().as_str(), "GET");
    assert_eq!(wire.url().as_str(), "http://127.0.0.1:8080/messages?pageLimit=10");
    assert_eq!(wire.url().path(), "/messages");
    assert_eq!(wire.url().query(), Some("pageLimit=10"));
    assert_eq!(wire.headers().get("authorization").unwrap().to_str().unwrap(), "Bearer abc123");
}

#[test]
fn request_without_parameters_goes_on_the_wire_without_query_string() {
    let client = NRFCloudClient::new("abc123").with_base_url("http://127.0.0.1:8080");
    let request = client.list_messages(&ListMessagesParams::default());
    let wire = reqwest::Client::new()
        .get(&request.url)
        .header(&request.header_name, &request.header_value)
        .query(&request.query)
        .build()
        .unwrap();
    assert_eq!(wire.url().as_str(), "http://127.0.0.1:8080/messages");
    assert_eq!(wire.url().query(), None);
}

#[test]
fn parameters_are_escaped_on_the_wire_and_not_before() {
    let client = NRFCloudClient::new("t").with_base_url("http://127.0.0.1:8080");
    let mut params = ListMessagesParams::default();
    params.topic = Some("a/b c&d=e".to_string());
    params.pageSort = Some("desc".to_string());
    let request = client.list_messages(&params);
    assert_eq!(request.query, vec![pair("topic", "a/b c&d=e"), pair("pageSort", "desc")]);
    let wire = reqwest::Client::new().get(&request.url).query(&request.query).build().unwrap();
    assert_eq!(wire.url().query(), Some("topic=a%2Fb+c%26d%3De&pageSort=desc"));
}
