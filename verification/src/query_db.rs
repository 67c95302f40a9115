//! Retrieval: embed the prompt, query the store for its neighbours, and hand
//! the matches on in the pipeline's own form.

use crate::constants::{EMBEDDING_MODEL, TOP_K};
use crate::env_load::Config;
use crate::number::Float32;
use crate::pinecone_client::{
    is_open,
    query_next,
    Action,
    Exchange,
    PineconeClient,
    PineconeError,
    PineconeErrorView,
    PineconeMatch,
    QueryResponse,
    Step,
};
use crate::text::copy_of;
use crate::types::{QueryMatch, QueryMatchMetadata, QueryMatchView, QueryResult};
use vstd::prelude::*;
use vstd::string::*;

verus! {

/// Which leg of a retrieval failed.
#[derive(Debug)]
pub enum QueryError {
    /// The embedding service; with its words.
    OpenAI(String),
    /// The vector store.
    Pinecone(PineconeError),
}

/// A `QueryError` as a mathematical value.
pub enum QueryErrorView {
    OpenAI(Seq<char>),
    Pinecone(PineconeErrorView),
}

impl View for QueryError {
    type V = QueryErrorView;

    open spec fn view(&self) -> QueryErrorView {
        match self {
            QueryError::OpenAI(detail) => QueryErrorView::OpenAI(detail@),
            QueryError::Pinecone(inner) => QueryErrorView::Pinecone(inner@),
        }
    }
}

/// What to embed, and with which model.
#[derive(Debug)]
pub struct EmbeddingRequest {
    pub model: String,
    pub input: Vec<String>,
}

/// What has come back so far during one retrieval.
#[derive(Debug)]
pub struct Retrieval {
    /// The embeddings of the request's inputs, in their order.
    pub embedded: Option<Result<Vec<Vec<Float32>>, String>>,
    /// What the vector store has answered.
    pub exchange: Exchange,
}

/// What the driver of a retrieval is asked to do.
#[derive(Debug)]
pub enum RetrievalAction {
    /// Have the inputs embedded and record the vectors in `embedded`.
    Embed(EmbeddingRequest),
    /// Do this for the vector store and record the outcome in `exchange`.
    Store(Action),
}

/// The next step of a retrieval: something to do, or its result.
#[derive(Debug)]
pub enum RetrievalStep {
    Next(RetrievalAction),
    Done(Result<QueryResult, QueryError>),
}

/// The members of a JSON object that hold a string, each under its key; empty
/// for a value that is no object.
pub uninterp spec fn text_members(value: serde_json::Value) -> Map<Seq<char>, Seq<char>>;

/// Calls `serde_json::Value::get` with a string key, then
/// `serde_json::Value::as_str` on what it found. The first finds a member
/// only in an object that has the key, the second yields a text only for a
/// string: so the result is the member of `text_members` under `key`.
#[verifier::external_body]
fn text_member(value: &serde_json::Value, key: &str) -> (r: Option<String>)
    ensures
        r is Some <==> text_members(*value).contains_key(key@),
        r matches Some(text) ==> text@ == text_members(*value)[key@],
{
    match value.get(key) {
        Some(member) => member.as_str().map(String::from),
        None => None,
    }
}

/// The text of a match: the string under `text` in its metadata, and empty
/// where there is no metadata, no such member, or no string in it.
pub open spec fn metadata_text(metadata: Option<serde_json::Value>) -> Seq<char> {
    match metadata {
        Some(value) => if text_members(value).contains_key("text"@) {
            text_members(value)["text"@]
        } else {
            Seq::empty()
        },
        None => Seq::empty(),
    }
}

/// A match of the store in the pipeline's form.
pub open spec fn match_of(found: PineconeMatch) -> QueryMatchView {
    QueryMatchView { id: found.id@, score: found.score, text: metadata_text(found.metadata) }
}

/// The matches of an answer in the pipeline's form, in their order.
pub open spec fn matches_of(response: QueryResponse) -> Seq<QueryMatchView> {
    response.matches@.map_values(|found: PineconeMatch| match_of(found))
}

/// `request` asks for the embedding of `prompt` alone.
pub open spec fn is_prompt_embedding(request: EmbeddingRequest, prompt: Seq<char>) -> bool {
    &&& request.model@ == EMBEDDING_MODEL@
    &&& request.input@.len() == 1
    &&& request.input@[0]@ == prompt
}

/// Nothing has come back yet for what `action` asks for.
pub open spec fn is_open_retrieval(action: RetrievalAction, so_far: Retrieval) -> bool {
    match action {
        RetrievalAction::Embed(_) => so_far.embedded is None,
        RetrievalAction::Store(inner) => is_open(inner, so_far.exchange),
    }
}

/// The matches that a retrieval has ended with, where it has ended well: the
/// embedding came, and so did the answer to the query for the `TOP_K`
/// neighbours of its first vector.
pub open spec fn retrieved(config: Config, so_far: Retrieval) -> Option<Seq<QueryMatchView>> {
    if so_far.embedded matches Some(Ok(vectors)) && so_far.exchange.matches matches Some(
        Ok(response),
    ) && query_next(
        Step::<&QueryResponse>::Done(Ok(&response)),
        config.pinecone_api_key@,
        config.pinecone_index_name@,
        vectors@[0]@,
        TOP_K,
        true,
        so_far.exchange,
    ) {
        Some(matches_of(so_far.exchange.matches->Some_0->Ok_0))
    } else {
        None
    }
}

/// `next` is the step of `query_db` after `so_far`: the embedding of the
/// prompt first; then the steps of a query for the `TOP_K` neighbours of the
/// first vector, metadata included; and at the end the matches in the
/// pipeline's form. A failure names its leg.
pub open spec fn query_db_next(
    next: RetrievalStep,
    prompt: Seq<char>,
    config: Config,
    so_far: Retrieval,
) -> bool {
    match so_far.embedded {
        None => next matches RetrievalStep::Next(RetrievalAction::Embed(request))
            && is_prompt_embedding(request, prompt),
        Some(Err(detail)) => next matches RetrievalStep::Done(Err(e)) && e@
            == QueryErrorView::OpenAI(detail@),
        Some(Ok(vectors)) => match next {
            RetrievalStep::Next(RetrievalAction::Embed(_)) => false,
            RetrievalStep::Next(RetrievalAction::Store(action)) => query_next(
                Step::<&QueryResponse>::Next(action),
                config.pinecone_api_key@,
                config.pinecone_index_name@,
                vectors@[0]@,
                TOP_K,
                true,
                so_far.exchange,
            ),
            RetrievalStep::Done(Err(QueryError::OpenAI(_))) => false,
            RetrievalStep::Done(Err(QueryError::Pinecone(e))) => query_next(
                Step::<&QueryResponse>::Done(Err(e)),
                config.pinecone_api_key@,
                config.pinecone_index_name@,
                vectors@[0]@,
                TOP_K,
                true,
                so_far.exchange,
            ),
            RetrievalStep::Done(Ok(result)) => retrieved(config, so_far) == Some(result@),
        },
    }
}

impl QueryError {
    /// What the error says of itself.
    pub open spec fn message_text(self) -> Seq<char> {
        match self {
            QueryError::OpenAI(detail) => "OpenAI error: "@ + detail@,
            QueryError::Pinecone(inner) => "Pinecone error: "@ + inner.message_text(),
        }
    }

    /// Describes the error in one line.
    pub fn message(&self) -> (r: String)
        ensures
            r@ == self.message_text(),
    {
        let mut out = String::new();
        match self {
            QueryError::OpenAI(detail) => {
                out.append("OpenAI error: ");
                out.append(detail.as_str());
            },
            QueryError::Pinecone(inner) => {
                out.append("Pinecone error: ");
                out.append(inner.message().as_str());
            },
        }
        assert(out@ =~= self.message_text());
        out
    }
}

impl Retrieval {
    /// A retrieval in which nothing has come back yet.
    pub fn new() -> (r: Retrieval)
        ensures
            r.embedded is None,
            r.exchange.described is None,
            r.exchange.host is None,
            r.exchange.replied is None,
            r.exchange.matches is None,
    {
        Retrieval { embedded: None, exchange: Exchange::new() }
    }
}

/// The text of a match.
pub fn text_of(metadata: &Option<serde_json::Value>) -> (r: String)
    ensures
        r@ == metadata_text(*metadata),
{
    match metadata {
        Some(value) => match text_member(value, "text") {
            Some(text) => text,
            None => String::new(),
        },
        None => String::new(),
    }
}

/// Hands the matches of an answer on in the pipeline's form: each with its
/// id, its score and its text, in the order in which they came.
pub fn to_query_result(response: &QueryResponse) -> (r: QueryResult)
    ensures
        r@ == matches_of(*response),
{
    let mut matches: Vec<QueryMatch> = Vec::new();
    let mut i: usize = 0;
    while i < response.matches.len()
        invariant
            i <= response.matches.len(),
            matches@.len() == i,
            forall|j: int| 0 <= j < i ==> (#[trigger] matches@[j])@ == match_of(response.matches@[j]),
        decreases response.matches.len() - i,
    {
        let found = &response.matches[i];
        matches.push(
            QueryMatch {
                id: copy_of(found.id.as_str()),
                score: found.score,
                metadata: QueryMatchMetadata { text: text_of(&found.metadata) },
            },
        );
        i = i + 1;
    }
    let result = QueryResult { matches };
    assert(result@ =~= matches_of(*response));
    result
}

/// Retrieves the neighbours of `prompt`: has the prompt embedded alone, takes
/// the first vector that comes back, queries the configured index for its
/// `TOP_K` nearest neighbours with their metadata, and hands the matches on.
/// An embedding that came back must hold a vector.
pub fn query_db(prompt: &str, config: &Config, so_far: &Retrieval) -> (next: RetrievalStep)
    requires
        so_far.embedded matches Some(Ok(vectors)) ==> vectors@.len() > 0,
    ensures
        query_db_next(next, prompt@, *config, *so_far),
        next matches RetrievalStep::Next(action) ==> is_open_retrieval(action, *so_far),
{
    match &so_far.embedded {
        None => {
            let mut input: Vec<String> = Vec::new();
            input.push(copy_of(prompt));
            RetrievalStep::Next(
                RetrievalAction::Embed(EmbeddingRequest { model: copy_of(EMBEDDING_MODEL), input }),
            )
        },
        Some(Err(detail)) => RetrievalStep::Done(Err(QueryError::OpenAI(copy_of(detail.as_str())))),
        Some(Ok(vectors)) => {
            let client = PineconeClient::new(config.pinecone_api_key.as_str());
            match client.query(
                config.pinecone_index_name.as_str(),
                &vectors[0],
                TOP_K,
                true,
                &so_far.exchange,
            ) {
                Step::Next(action) => RetrievalStep::Next(RetrievalAction::Store(action)),
                Step::Done(Err(e)) => RetrievalStep::Done(Err(QueryError::Pinecone(e))),
                Step::Done(Ok(response)) => RetrievalStep::Done(Ok(to_query_result(response))),
            }
        },
    }
}

} // verus!
