use rag::constants::CHAT_MODEL;
use rag::context::{build_context, build_messages, Role};
use rag::entry::{
    answer_of, ask, find_similar, make_db, read_prompt, upload_embeddings, Conversation,
    EntryAction, EntryError, EntryStep,
};
use rag::env_load::Config;
use rag::number::Float32;
use rag::pinecone_client::{
    Action, Exchange, Payload, PineconeError, PineconeMatch, QueryResponse, Reply,
};
use rag::query_db::{QueryError, Retrieval, RetrievalAction};
use rag::types::{EmbeddingRecord, EmbeddingRecordMetadata, QueryMatch, QueryMatchMetadata, QueryResult};

fn num(x: f32) -> Float32 {
    Float32::from_bits(x.to_bits())
}

fn config() -> Config {
    Config {
        openai_api_key: "sk-test".to_string(),
        pinecone_api_key: "pc-test".to_string(),
        pinecone_index_name: "faq".to_string(),
        pinecone_index_dimension: 1536,
        pinecone_index_metric: "cosine".to_string(),
        pinecone_index_cloud: "aws".to_string(),
        pinecone_index_region: "us-east-1".to_string(),
    }
}

fn hello_object() -> serde_json::Value {
    let mut map = serde_json::Map::new();
    map.insert("text".to_string(), serde_json::Value::String("Hello".to_string()));
    serde_json::Value::Object(map)
}

fn retrieved() -> Retrieval {
    let mut so_far = Retrieval::new();
    so_far.embedded = Some(Ok(vec![vec![num(1.0)]]));
    so_far.exchange.described = Some(Ok(Reply { status: 200, body: String::new() }));
    so_far.exchange.host = Some(Ok("h".to_string()));
    so_far.exchange.replied = Some(Ok(Reply { status: 200, body: String::new() }));
    so_far.exchange.matches = Some(Ok(QueryResponse {
        matches: vec![PineconeMatch { id: "a".to_string(), score: num(0.9123456), metadata: Some(hello_object()) }],
    }));
    so_far
}

fn everything_back() -> Conversation {
    let mut so_far = Conversation::new();
    so_far.retrieval = retrieved();
    so_far.answered = Some(Ok(Some("an answer".to_string())));
    so_far
}

#[test]
fn prompt_is_trimmed() {
    assert_eq!(read_prompt("  What is it?\n"), Some("What is it?"));
    assert_eq!(read_prompt("q"), Some("q"));
}

#[test]
fn blank_prompt_is_none() {
    assert_eq!(read_prompt(""), None);
    assert_eq!(read_prompt(" \n\t\r\n"), None);
}

#[test]
fn answer_is_the_trimmed_content() {
    assert_eq!(answer_of(&Some("  answer  ".to_string())), "answer");
    assert_eq!(answer_of(&Some("answer".to_string())), "answer");
    assert_eq!(answer_of(&Some(" \n".to_string())), "");
}

#[test]
fn answer_without_content_is_empty() {
    assert_eq!(answer_of(&None), "");
}

#[test]
fn ask_refuses_an_empty_prompt_before_anything_else() {
    for raw in ["", "   ", "\n\n", "\t \r\n"] {
        assert!(matches!(ask(raw, &config(), &Conversation::new()), EntryStep::Done(Err(EntryError::EmptyPrompt))));
        assert!(matches!(ask(raw, &config(), &everything_back()), EntryStep::Done(Err(EntryError::EmptyPrompt))));
    }
    assert_eq!(EntryError::EmptyPrompt.message(), "Prompt is empty");
}

#[test]
fn find_similar_refuses_an_empty_prompt_before_anything_else() {
    for raw in ["", "   ", "\n"] {
        assert!(matches!(
            find_similar(raw, &config(), &Retrieval::new()),
            EntryStep::Done(Err(EntryError::EmptyPrompt))
        ));
        assert!(matches!(
            find_similar(raw, &config(), &retrieved()),
            EntryStep::Done(Err(EntryError::EmptyPrompt))
        ));
    }
}

#[test]
fn find_similar_embeds_the_trimmed_prompt() {
    match find_similar("  What is it? \n", &config(), &Retrieval::new()) {
        EntryStep::Next(EntryAction::Retrieve(RetrievalAction::Embed(request))) => {
            assert_eq!(request.input, vec!["What is it?".to_string()]);
        }
        other => panic!("{:?}", other),
    }
}

#[test]
fn find_similar_ends_with_the_matches() {
    match find_similar("q", &config(), &retrieved()) {
        EntryStep::Done(Ok(result)) => assert_eq!(
            result,
            QueryResult {
                matches: vec![QueryMatch {
                    id: "a".to_string(),
                    score: num(0.9123456),
                    metadata: QueryMatchMetadata { text: "Hello".to_string() },
                }],
            }
        ),
        other => panic!("{:?}", other),
    }
}

#[test]
fn find_similar_passes_a_failed_retrieval_on() {
    let mut so_far = Retrieval::new();
    so_far.embedded = Some(Err("no key".to_string()));
    match find_similar("q", &config(), &so_far) {
        EntryStep::Done(Err(e)) => {
            assert!(matches!(e, EntryError::Query(QueryError::OpenAI(_))));
            assert_eq!(e.message(), "OpenAI error: no key");
        }
        other => panic!("{:?}", other),
    }
}

#[test]
fn ask_retrieves_then_chats_then_answers() {
    let mut so_far = Conversation::new();
    match ask(" What is it? ", &config(), &so_far) {
        EntryStep::Next(EntryAction::Retrieve(RetrievalAction::Embed(request))) => {
            assert_eq!(request.input, vec!["What is it?".to_string()]);
        }
        other => panic!("{:?}", other),
    }
    so_far.retrieval.embedded = Some(Ok(vec![vec![num(1.0)]]));
    assert!(matches!(
        ask(" What is it? ", &config(), &so_far),
        EntryStep::Next(EntryAction::Retrieve(RetrievalAction::Store(Action::Describe(_))))
    ));
    so_far.retrieval = retrieved();
    match ask(" What is it? ", &config(), &so_far) {
        EntryStep::Next(EntryAction::Chat(request)) => {
            assert_eq!(request.model, CHAT_MODEL);
            let context = "<context>\n<document>\n<index>1</index>\n<score>0.9123</score>\n<text>Hello</text>\n</document>\n</context>";
            assert_eq!(request.messages, build_messages(context, "What is it?"));
            assert_eq!(request.messages[0].role, Role::System);
            assert_eq!(
                request.messages[1].content,
                format!("<request>\n{}\n<question>\nWhat is it?\n</question>\n</request>", context)
            );
            let same = QueryResult {
                matches: vec![QueryMatch {
                    id: "a".to_string(),
                    score: num(0.9123456),
                    metadata: QueryMatchMetadata { text: "Hello".to_string() },
                }],
            };
            assert_eq!(build_context(&same), context);
        }
        other => panic!("{:?}", other),
    }
    so_far.answered = Some(Ok(Some("  answer  ".to_string())));
    match ask(" What is it? ", &config(), &so_far) {
        EntryStep::Done(Ok(answer)) => assert_eq!(answer, "answer"),
        other => panic!("{:?}", other),
    }
    so_far.answered = Some(Ok(None));
    match ask(" What is it? ", &config(), &so_far) {
        EntryStep::Done(Ok(answer)) => assert_eq!(answer, ""),
        other => panic!("{:?}", other),
    }
}

#[test]
fn ask_reports_which_leg_failed() {
    let mut so_far = Conversation::new();
    so_far.retrieval.embedded = Some(Ok(vec![vec![num(1.0)]]));
    so_far.retrieval.exchange.described = Some(Ok(Reply { status: 500, body: String::new() }));
    match ask("q", &config(), &so_far) {
        EntryStep::Done(Err(e)) => {
            assert!(matches!(e, EntryError::Query(QueryError::Pinecone(PineconeError::IndexNotFound(_)))));
            assert_eq!(e.message(), "Pinecone error: Index not found: faq");
        }
        other => panic!("{:?}", other),
    }
    so_far.retrieval = retrieved();
    so_far.answered = Some(Err("model overloaded".to_string()));
    match ask("q", &config(), &so_far) {
        EntryStep::Done(Err(e)) => {
            assert!(matches!(e, EntryError::Chat(_)));
            assert_eq!(e.message(), "model overloaded");
        }
        other => panic!("{:?}", other),
    }
}

#[test]
fn an_early_answer_does_not_skip_the_retrieval() {
    let mut so_far = Conversation::new();
    so_far.answered = Some(Ok(Some("too early".to_string())));
    assert!(matches!(
        ask("q", &config(), &so_far),
        EntryStep::Next(EntryAction::Retrieve(RetrievalAction::Embed(_)))
    ));
}

#[test]
fn make_db_asks_whether_the_index_exists() {
    match make_db(&config(), &Exchange::new()) {
        EntryStep::Next(EntryAction::Store(Action::Describe(request))) => {
            assert_eq!(request.url, "https://api.pinecone.io/indexes/faq");
        }
        other => panic!("{:?}", other),
    }
}

#[test]
fn make_db_refuses_an_existing_index() {
    let mut so_far = Exchange::new();
    so_far.described = Some(Ok(Reply { status: 200, body: "{}".to_string() }));
    match make_db(&config(), &so_far) {
        EntryStep::Done(Err(e)) => {
            assert!(matches!(e, EntryError::IndexExists(_)));
            assert_eq!(e.message(), "faq already exists");
        }
        other => panic!("{:?}", other),
    }
    so_far.replied = Some(Ok(Reply { status: 201, body: String::new() }));
    assert!(matches!(make_db(&config(), &so_far), EntryStep::Done(Err(EntryError::IndexExists(_)))));
}

#[test]
fn make_db_creates_a_missing_index() {
    for status in [404u16, 500] {
        let mut so_far = Exchange::new();
        so_far.described = Some(Ok(Reply { status, body: String::new() }));
        match make_db(&config(), &so_far) {
            EntryStep::Next(EntryAction::Store(Action::Send(request))) => {
                assert_eq!(request.url, "https://api.pinecone.io/indexes");
                match request.payload {
                    Payload::CreateIndex(body) => {
                        assert_eq!(body.name, "faq");
                        assert_eq!(body.dimension, 1536);
                        assert_eq!(body.metric, "cosine");
                        assert_eq!(body.spec.serverless.cloud, "aws");
                        assert_eq!(body.spec.serverless.region, "us-east-1");
                    }
                    other => panic!("{:?}", other),
                }
            }
            other => panic!("{:?}", other),
        }
        so_far.replied = Some(Ok(Reply { status: 201, body: String::new() }));
        assert!(matches!(make_db(&config(), &so_far), EntryStep::Done(Ok(()))));
        so_far.replied = Some(Ok(Reply { status: 409, body: "exists".to_string() }));
        match make_db(&config(), &so_far) {
            EntryStep::Done(Err(e)) => assert_eq!(e.message(), "API error: Failed to create index: 409 Conflict - exists"),
            other => panic!("{:?}", other),
        }
    }
}

#[test]
fn make_db_passes_a_transport_failure_on() {
    let mut so_far = Exchange::new();
    so_far.described = Some(Err("offline".to_string()));
    match make_db(&config(), &so_far) {
        EntryStep::Done(Err(e)) => assert_eq!(e.message(), "HTTP error: offline"),
        other => panic!("{:?}", other),
    }
}

#[test]
fn upload_upserts_into_the_configured_index() {
    let records = vec![EmbeddingRecord {
        id: "0".to_string(),
        values: vec![num(0.5)],
        metadata: EmbeddingRecordMetadata { text: "chunk".to_string() },
    }];
    let mut so_far = Exchange::new();
    match upload_embeddings(&config(), &records, &so_far) {
        EntryStep::Next(EntryAction::Store(Action::Describe(request))) => {
            assert_eq!(request.url, "https://api.pinecone.io/indexes/faq");
        }
        other => panic!("{:?}", other),
    }
    so_far.described = Some(Ok(Reply { status: 200, body: String::new() }));
    so_far.host = Some(Ok("h".to_string()));
    match upload_embeddings(&config(), &records, &so_far) {
        EntryStep::Next(EntryAction::Store(Action::Send(request))) => match request.payload {
            Payload::Upsert(body) => assert_eq!(body.vectors, records),
            other => panic!("{:?}", other),
        },
        other => panic!("{:?}", other),
    }
    so_far.replied = Some(Ok(Reply { status: 200, body: String::new() }));
    assert!(matches!(upload_embeddings(&config(), &records, &so_far), EntryStep::Done(Ok(()))));
    so_far.replied = Some(Ok(Reply { status: 413, body: "too big".to_string() }));
    match upload_embeddings(&config(), &records, &so_far) {
        EntryStep::Done(Err(e)) => assert_eq!(e.message(), "API error: Failed to upsert: 413 Payload Too Large - too big"),
        other => panic!("{:?}", other),
    }
}
