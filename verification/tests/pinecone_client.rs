use rag::number::Float32;
use rag::pinecone_client::{
    status_is_success, Action, Exchange, Header, Method, Payload,
    PineconeClient, PineconeError, PineconeMatch, QueryResponse, Reply, Request, Step,
};
use rag::types::{copy_record, copy_values, EmbeddingRecord, EmbeddingRecordMetadata};

fn reply(status: u16, body: &str) -> Option<Result<Reply, String>> {
    Some(Ok(Reply { status, body: body.to_string() }))
}

fn header_pairs(headers: &[Header]) -> Vec<(String, String)> {
    headers.iter().map(|h| (h.name.clone(), h.value.clone())).collect()
}

fn pair(name: &str, value: &str) -> (String, String) {
    (name.to_string(), value.to_string())
}

fn plain(key: &str) -> Vec<(String, String)> {
    vec![pair("Api-Key", key), pair("Accept", "application/json")]
}

fn json(key: &str) -> Vec<(String, String)> {
    vec![pair("Api-Key", key), pair("Accept", "application/json"), pair("Content-Type", "application/json")]
}

fn num(x: f32) -> Float32 {
    Float32::from_bits(x.to_bits())
}

fn record(id: &str, values: &[f32], text: &str) -> EmbeddingRecord {
    EmbeddingRecord {
        id: id.to_string(),
        values: values.iter().map(|v| num(*v)).collect(),
        metadata: EmbeddingRecordMetadata { text: text.to_string() },
    }
}

fn described(status: u16, host: Option<Result<&str, &str>>) -> Exchange {
    let mut so_far = Exchange::new();
    so_far.described = reply(status, "{\"host\":\"raw\"}");
    so_far.host = host.map(|h| h.map(|s| s.to_string()).map_err(|s| s.to_string()));
    so_far
}

fn assert_describes(request: &Request, key: &str, name: &str) {
    assert_eq!(request.method, Method::Get);
    assert_eq!(request.url, format!("https://api.pinecone.io/indexes/{}", name));
    assert_eq!(header_pairs(&request.headers), plain(key));
    assert!(matches!(request.payload, Payload::Empty));
}

fn api_error<T: std::fmt::Debug>(step: Step<T>) -> String {
    match step {
        Step::Done(Err(PineconeError::Api(text))) => text,
        other => panic!("no API error: {:?}", other),
    }
}

fn http_error<T: std::fmt::Debug>(step: Step<T>) -> String {
    match step {
        Step::Done(Err(PineconeError::Http(text))) => text,
        other => panic!("no HTTP error: {:?}", other),
    }
}

fn request_of<T: std::fmt::Debug>(step: Step<T>) -> Request {
    match step {
        Step::Next(Action::Send(request)) => request,
        other => panic!("no request to send: {:?}", other),
    }
}

#[test]
fn a_new_exchange_is_empty() {
    let so_far = Exchange::new();
    assert!(so_far.described.is_none());
    assert!(so_far.host.is_none());
    assert!(so_far.replied.is_none());
    assert!(so_far.matches.is_none());
}

#[test]
fn success_is_a_status_from_200_to_299() {
    for status in [0u16, 99, 100, 199, 300, 301, 404, 500, 999, 65535] {
        assert!(!status_is_success(status), "{}", status);
    }
    for status in [200u16, 201, 204, 250, 299] {
        assert!(status_is_success(status), "{}", status);
    }
}

#[test]
fn index_exists_asks_for_the_description_first() {
    let client = PineconeClient::new("key-1");
    match client.index_exists("faq", &Exchange::new()) {
        Step::Next(Action::Describe(request)) => assert_describes(&request, "key-1", "faq"),
        other => panic!("{:?}", other),
    }
}

#[test]
fn index_exists_is_true_on_success() {
    let client = PineconeClient::new("k");
    for status in [200u16, 201, 299] {
        let mut so_far = Exchange::new();
        so_far.described = reply(status, "{}");
        assert!(matches!(client.index_exists("faq", &so_far), Step::Done(Ok(true))));
    }
}

#[test]
fn index_exists_is_false_on_any_other_status() {
    let client = PineconeClient::new("k");
    for status in [404u16, 500, 401, 403, 429, 503, 301, 199, 300, 100] {
        let mut so_far = Exchange::new();
        so_far.described = reply(status, "whatever");
        assert!(matches!(client.index_exists("faq", &so_far), Step::Done(Ok(false))), "{}", status);
    }
}

#[test]
fn index_exists_passes_a_transport_failure_on() {
    let client = PineconeClient::new("k");
    let mut so_far = Exchange::new();
    so_far.described = Some(Err("connection refused".to_string()));
    assert_eq!(http_error(client.index_exists("faq", &so_far)), "connection refused");
}

#[test]
fn create_index_sends_the_nested_payload() {
    let client = PineconeClient::new("key-2");
    let request = request_of(client.create_index("faq", 1536, "cosine", "aws", "us-east-1", &Exchange::new()));
    assert_eq!(request.method, Method::Post);
    assert_eq!(request.url, "https://api.pinecone.io/indexes");
    assert_eq!(header_pairs(&request.headers), json("key-2"));
    match request.payload {
        Payload::CreateIndex(body) => {
            assert_eq!(body.name, "faq");
            assert_eq!(body.dimension, 1536);
            assert_eq!(body.metric, "cosine");
            assert_eq!(body.spec.serverless.cloud, "aws");
            assert_eq!(body.spec.serverless.region, "us-east-1");
        }
        other => panic!("{:?}", other),
    }
}

#[test]
fn create_index_succeeds_on_success() {
    let client = PineconeClient::new("k");
    let mut so_far = Exchange::new();
    so_far.replied = reply(201, "{}");
    assert!(matches!(client.create_index("faq", 8, "cosine", "aws", "r", &so_far), Step::Done(Ok(()))));
}

#[test]
fn create_index_reports_status_and_body() {
    let client = PineconeClient::new("k");
    let mut so_far = Exchange::new();
    so_far.replied = reply(409, "{\"error\":\"exists\"}");
    assert_eq!(
        api_error(client.create_index("faq", 8, "cosine", "aws", "r", &so_far)),
        "Failed to create index: 409 Conflict - {\"error\":\"exists\"}"
    );
    so_far.replied = reply(500, "");
    assert_eq!(
        api_error(client.create_index("faq", 8, "cosine", "aws", "r", &so_far)),
        "Failed to create index: 500 Internal Server Error - "
    );
    so_far.replied = reply(799, "odd");
    assert_eq!(
        api_error(client.create_index("faq", 8, "cosine", "aws", "r", &so_far)),
        "Failed to create index: 799 <unknown status code> - odd"
    );
    so_far.replied = reply(42, "no such status");
    assert_eq!(
        api_error(client.create_index("faq", 8, "cosine", "aws", "r", &so_far)),
        "Failed to create index: 42 - no such status"
    );
}

#[test]
fn create_index_passes_a_transport_failure_on() {
    let client = PineconeClient::new("k");
    let mut so_far = Exchange::new();
    so_far.replied = Some(Err("timed out".to_string()));
    assert_eq!(http_error(client.create_index("faq", 8, "cosine", "aws", "r", &so_far)), "timed out");
}

#[test]
fn host_resolution_asks_then_decodes_then_knows() {
    let client = PineconeClient::new("key-3");
    match client.get_index_host("faq", &Exchange::new()) {
        Step::Next(Action::Describe(request)) => assert_describes(&request, "key-3", "faq"),
        other => panic!("{:?}", other),
    }
    match client.get_index_host("faq", &described(200, None)) {
        Step::Next(Action::DecodeHost(body)) => assert_eq!(body, "{\"host\":\"raw\"}"),
        other => panic!("{:?}", other),
    }
    match client.get_index_host("faq", &described(200, Some(Ok("faq-1.svc.pinecone.io")))) {
        Step::Done(Ok(host)) => assert_eq!(host, "faq-1.svc.pinecone.io"),
        other => panic!("{:?}", other),
    }
}

#[test]
fn host_resolution_fails_with_index_not_found() {
    let client = PineconeClient::new("k");
    for status in [404u16, 500, 302] {
        for host in [None, Some(Ok("h")), Some(Err("bad"))] {
            match client.get_index_host("faq", &described(status, host)) {
                Step::Done(Err(PineconeError::IndexNotFound(name))) => assert_eq!(name, "faq"),
                other => panic!("{:?}", other),
            }
        }
    }
}

#[test]
fn host_resolution_passes_failures_on() {
    let client = PineconeClient::new("k");
    let mut so_far = Exchange::new();
    so_far.described = Some(Err("dns".to_string()));
    assert_eq!(http_error(client.get_index_host("faq", &so_far)), "dns");
    assert_eq!(
        http_error(client.get_index_host("faq", &described(200, Some(Err("missing field `host`"))))),
        "missing field `host`"
    );
}

#[test]
fn upsert_resolves_the_host_first() {
    let client = PineconeClient::new("key-4");
    let records = vec![record("0", &[0.5], "a")];
    match client.upsert("faq", &records, &Exchange::new()) {
        Step::Next(Action::Describe(request)) => assert_describes(&request, "key-4", "faq"),
        other => panic!("{:?}", other),
    }
    assert!(matches!(
        client.upsert("faq", &records, &described(200, None)),
        Step::Next(Action::DecodeHost(_))
    ));
    match client.upsert("faq", &records, &described(404, None)) {
        Step::Done(Err(PineconeError::IndexNotFound(name))) => assert_eq!(name, "faq"),
        other => panic!("{:?}", other),
    }
    let mut answered_early = described(404, None);
    answered_early.replied = reply(200, "");
    assert!(matches!(
        client.upsert("faq", &records, &answered_early),
        Step::Done(Err(PineconeError::IndexNotFound(_)))
    ));
}

#[test]
fn upsert_sends_the_records_to_the_host() {
    let client = PineconeClient::new("key-4");
    let records = vec![record("0", &[0.5, -1.0], "first chunk"), record("1", &[], "second")];
    let request = request_of(client.upsert("faq", &records, &described(200, Some(Ok("faq-1.svc.pinecone.io")))));
    assert_eq!(request.method, Method::Post);
    assert_eq!(request.url, "https://faq-1.svc.pinecone.io/vectors/upsert");
    assert_eq!(header_pairs(&request.headers), json("key-4"));
    match request.payload {
        Payload::Upsert(body) => assert_eq!(body.vectors, records),
        other => panic!("{:?}", other),
    }
}

#[test]
fn upsert_judges_the_answer() {
    let client = PineconeClient::new("k");
    let records = vec![record("0", &[0.5], "a")];
    let mut so_far = described(200, Some(Ok("h")));
    so_far.replied = reply(200, "{\"upsertedCount\":1}");
    assert!(matches!(client.upsert("faq", &records, &so_far), Step::Done(Ok(()))));
    so_far.replied = reply(400, "bad vector");
    assert_eq!(api_error(client.upsert("faq", &records, &so_far)), "Failed to upsert: 400 Bad Request - bad vector");
    so_far.replied = Some(Err("reset".to_string()));
    assert_eq!(http_error(client.upsert("faq", &records, &so_far)), "reset");
}

#[test]
fn query_sends_the_vector_to_the_host() {
    let client = PineconeClient::new("key-5");
    let vector = vec![num(0.25), num(-0.5), num(1.0)];
    match client.query("faq", &vector, 5, true, &Exchange::new()) {
        Step::Next(Action::Describe(request)) => assert_describes(&request, "key-5", "faq"),
        other => panic!("{:?}", other),
    }
    let request = request_of(client.query("faq", &vector, 7, false, &described(200, Some(Ok("h.example")))));
    assert_eq!(request.method, Method::Post);
    assert_eq!(request.url, "https://h.example/query");
    assert_eq!(header_pairs(&request.headers), json("key-5"));
    match request.payload {
        Payload::Query(body) => {
            assert_eq!(body.vector, vector);
            assert_eq!(body.top_k, 7);
            assert!(!body.include_metadata);
        }
        other => panic!("{:?}", other),
    }
}

#[test]
fn query_judges_the_answer_then_decodes() {
    let client = PineconeClient::new("k");
    let vector = vec![num(0.25)];
    let mut so_far = described(200, Some(Ok("h")));
    so_far.replied = reply(503, "busy");
    assert_eq!(
        api_error(client.query("faq", &vector, 5, true, &so_far)),
        "Failed to query: 503 Service Unavailable - busy"
    );
    so_far.replied = Some(Err("broken pipe".to_string()));
    assert_eq!(http_error(client.query("faq", &vector, 5, true, &so_far)), "broken pipe");
    so_far.replied = reply(200, "{\"matches\":[]}");
    match client.query("faq", &vector, 5, true, &so_far) {
        Step::Next(Action::DecodeMatches(body)) => assert_eq!(body, "{\"matches\":[]}"),
        other => panic!("{:?}", other),
    }
    so_far.matches = Some(Err("expected value at line 1".to_string()));
    assert_eq!(http_error(client.query("faq", &vector, 5, true, &so_far)), "expected value at line 1");
    so_far.matches = Some(Ok(QueryResponse {
        matches: vec![PineconeMatch { id: "7".to_string(), score: num(0.5), metadata: None }],
    }));
    match client.query("faq", &vector, 5, true, &so_far) {
        Step::Done(Ok(response)) => {
            assert_eq!(response.matches.len(), 1);
            assert_eq!(response.matches[0].id, "7");
            assert_eq!(response.matches[0].score, num(0.5));
        }
        other => panic!("{:?}", other),
    }
}

#[test]
fn a_failed_answer_outweighs_decoded_matches() {
    let client = PineconeClient::new("k");
    let mut so_far = described(200, Some(Ok("h")));
    so_far.replied = reply(500, "down");
    so_far.matches = Some(Ok(QueryResponse { matches: vec![] }));
    assert_eq!(
        api_error(client.query("faq", &vec![num(1.0)], 5, true, &so_far)),
        "Failed to query: 500 Internal Server Error - down"
    );
}

#[test]
fn pinecone_errors_describe_themselves() {
    assert_eq!(PineconeError::Http("timed out".to_string()).message(), "HTTP error: timed out");
    assert_eq!(PineconeError::Api("Failed to query: 500 - x".to_string()).message(), "API error: Failed to query: 500 - x");
    assert_eq!(PineconeError::IndexNotFound("faq".to_string()).message(), "Index not found: faq");
}

#[test]
fn copies_are_equal() {
    let values = vec![num(0.1), num(f32::NAN), num(-0.0)];
    assert_eq!(copy_values(&values), values);
    let r = record("12", &[1.0, 2.0], "text");
    assert_eq!(copy_record(&r), r);
}
