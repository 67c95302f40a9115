//! The client of the vector store, without its transport: what to send next,
//! and what to make of what came back.
//!
//! An operation is a function of its arguments and of what has come back so
//! far. It answers with the next thing to do, or with its result. Whoever
//! drives it performs the action, records the outcome in the `Exchange` and
//! asks again.

use crate::number::Float32;
use crate::text::{copy_of, decimal, push_decimal};
use crate::types::{copy_record, copy_values, EmbeddingRecord};
use vstd::prelude::*;
use vstd::string::*;

verus! {

/// `serde_json::Value`: a JSON value, carried as it came. What the library
/// reads of one is named by `query_db::text_members`.
#[verifier::external_type_specification]
#[verifier::external_body]
pub struct ExValue(serde_json::Value);

/// Why an operation on the vector store failed.
#[derive(Debug)]
pub enum PineconeError {
    /// The exchange itself failed, or a body could not be decoded; with the
    /// transport's words.
    Http(String),
    /// The service answered with a status outside 200 to 299.
    Api(String),
    /// The index could not be described.
    IndexNotFound(String),
}

/// A `PineconeError` as a mathematical value.
pub enum PineconeErrorView {
    Http(Seq<char>),
    Api(Seq<char>),
    IndexNotFound(Seq<char>),
}

impl View for PineconeError {
    type V = PineconeErrorView;

    open spec fn view(&self) -> PineconeErrorView {
        match self {
            PineconeError::Http(detail) => PineconeErrorView::Http(detail@),
            PineconeError::Api(detail) => PineconeErrorView::Api(detail@),
            PineconeError::IndexNotFound(name) => PineconeErrorView::IndexNotFound(name@),
        }
    }
}

/// Where a serverless index lives.
#[derive(Debug)]
pub struct ServerlessConfig {
    pub cloud: String,
    pub region: String,
}

/// The `spec` member of a creation request.
#[derive(Debug)]
pub struct ServerlessSpec {
    pub serverless: ServerlessConfig,
}

/// The body of a creation request.
#[derive(Debug)]
pub struct CreateIndexRequest {
    pub name: String,
    pub dimension: u32,
    pub metric: String,
    pub spec: ServerlessSpec,
}

/// The body of an upsert.
#[derive(Debug)]
pub struct UpsertRequest {
    pub vectors: Vec<EmbeddingRecord>,
}

/// The body of a query.
#[derive(Debug)]
pub struct QueryRequest {
    pub vector: Vec<Float32>,
    pub top_k: u32,
    pub include_metadata: bool,
}

/// What a request carries.
#[derive(Debug)]
pub enum Payload {
    Empty,
    CreateIndex(CreateIndexRequest),
    Upsert(UpsertRequest),
    Query(QueryRequest),
}

/// The two methods in use.
#[derive(Clone, Copy, Debug, PartialEq, Eq)]
pub enum Method {
    Get,
    Post,
}

/// One header line.
#[derive(Debug)]
pub struct Header {
    pub name: String,
    pub value: String,
}

/// A request, ready to be sent.
#[derive(Debug)]
pub struct Request {
    pub method: Method,
    pub url: String,
    pub headers: Vec<Header>,
    pub payload: Payload,
}

/// An answer of the service: its status and the text of its body.
#[derive(Debug)]
pub struct Reply {
    pub status: u16,
    pub body: String,
}

/// One match as the store reports it.
#[derive(Debug)]
pub struct PineconeMatch {
    pub id: String,
    pub score: Float32,
    pub metadata: Option<serde_json::Value>,
}

/// The decoded body of a query's answer.
#[derive(Debug)]
pub struct QueryResponse {
    pub matches: Vec<PineconeMatch>,
}

/// What has come back so far during one operation. Each field answers one
/// kind of `Action`; `Err` holds the words of whatever failed.
#[derive(Debug)]
pub struct Exchange {
    /// The answer to the description request.
    pub described: Option<Result<Reply, String>>,
    /// The host decoded from the description.
    pub host: Option<Result<String, String>>,
    /// The answer to the operation's own request.
    pub replied: Option<Result<Reply, String>>,
    /// The matches decoded from a query's answer.
    pub matches: Option<Result<QueryResponse, String>>,
}

/// What the driver is asked to do.
#[derive(Debug)]
pub enum Action {
    /// Send the request and record the answer in `described`.
    Describe(Request),
    /// Decode the host from this description body and record it in `host`.
    DecodeHost(String),
    /// Send the request and record the answer in `replied`.
    Send(Request),
    /// Decode the matches from this body and record them in `matches`.
    DecodeMatches(String),
}

/// The next step of an operation: something to do, or its result.
#[derive(Debug)]
pub enum Step<T> {
    Next(Action),
    Done(Result<T, PineconeError>),
}

/// The client: it knows the API key and nothing else.
#[derive(Debug)]
pub struct PineconeClient {
    api_key: String,
}

impl View for PineconeClient {
    type V = Seq<char>;

    /// The API key.
    closed spec fn view(&self) -> Seq<char> {
        self.api_key@
    }
}

/// The status lies between 200 and 299.
pub open spec fn is_success(status: u16) -> bool {
    200 <= status < 300
}

/// The status line of a valid status code, as `http::StatusCode` displays
/// it: the number and its canonical reason phrase.
pub uninterp spec fn status_line(code: u16) -> Seq<char>;

/// How a status reads in an error: its status line, or the bare number for a
/// code that no HTTP answer can carry.
pub open spec fn status_text(code: u16) -> Seq<char> {
    if 100 <= code <= 999 {
        status_line(code)
    } else {
        decimal(code as nat)
    }
}

/// The address at which an index is described.
pub open spec fn describe_url(name: Seq<char>) -> Seq<char> {
    "https://api.pinecone.io/indexes/"@ + name
}

/// The address of an operation on an index's own host.
pub open spec fn host_url(host: Seq<char>, path: Seq<char>) -> Seq<char> {
    "https://"@ + host + path
}

/// The headers of a request without a body.
pub open spec fn plain_headers(headers: Seq<Header>, api_key: Seq<char>) -> bool {
    &&& headers.len() == 2
    &&& headers[0].name@ == "Api-Key"@
    &&& headers[0].value@ == api_key
    &&& headers[1].name@ == "Accept"@
    &&& headers[1].value@ == "application/json"@
}

/// The headers of a request with a JSON body.
pub open spec fn json_headers(headers: Seq<Header>, api_key: Seq<char>) -> bool {
    &&& headers.len() == 3
    &&& headers[0].name@ == "Api-Key"@
    &&& headers[0].value@ == api_key
    &&& headers[1].name@ == "Accept"@
    &&& headers[1].value@ == "application/json"@
    &&& headers[2].name@ == "Content-Type"@
    &&& headers[2].value@ == "application/json"@
}

/// `request` asks for the description of the index `name`.
pub open spec fn is_describe_request(request: Request, api_key: Seq<char>, name: Seq<char>) -> bool {
    &&& request.method == Method::Get
    &&& request.url@ == describe_url(name)
    &&& plain_headers(request.headers@, api_key)
    &&& request.payload is Empty
}

/// `request` asks for the creation of a serverless index.
pub open spec fn is_create_request(
    request: Request,
    api_key: Seq<char>,
    name: Seq<char>,
    dimension: u32,
    metric: Seq<char>,
    cloud: Seq<char>,
    region: Seq<char>,
) -> bool {
    &&& request.method == Method::Post
    &&& request.url@ == "https://api.pinecone.io/indexes"@
    &&& json_headers(request.headers@, api_key)
    &&& request.payload matches Payload::CreateIndex(body)
    &&& body.name@ == name
    &&& body.dimension == dimension
    &&& body.metric@ == metric
    &&& body.spec.serverless.cloud@ == cloud
    &&& body.spec.serverless.region@ == region
}

/// `request` upserts `records`, in their order, at `host`.
pub open spec fn is_upsert_request(
    request: Request,
    api_key: Seq<char>,
    host: Seq<char>,
    records: Seq<EmbeddingRecord>,
) -> bool {
    &&& request.method == Method::Post
    &&& request.url@ == host_url(host, "/vectors/upsert"@)
    &&& json_headers(request.headers@, api_key)
    &&& request.payload matches Payload::Upsert(body)
    &&& body.vectors@.len() == records.len()
    &&& forall|i: int| 0 <= i < records.len() ==> (#[trigger] body.vectors@[i])@ == records[i]@
}

/// `request` queries `host` for the neighbours of `vector`.
pub open spec fn is_query_request(
    request: Request,
    api_key: Seq<char>,
    host: Seq<char>,
    vector: Seq<Float32>,
    top_k: u32,
    include_metadata: bool,
) -> bool {
    &&& request.method == Method::Post
    &&& request.url@ == host_url(host, "/query"@)
    &&& json_headers(request.headers@, api_key)
    &&& request.payload matches Payload::Query(body)
    &&& body.vector@ == vector
    &&& body.top_k == top_k
    &&& body.include_metadata == include_metadata
}

/// Where the resolution of an index's host stands.
pub enum Resolution {
    /// Nothing has come back: the description is to be asked for.
    Unresolved,
    /// The description came back with success: this body is to be decoded.
    Described(Seq<char>),
    /// The host is known.
    Resolved(Seq<char>),
    /// The host will not be known.
    Failed(PineconeErrorView),
}

/// Where the resolution of the host of `name` stands after `so_far`.
pub open spec fn resolution(name: Seq<char>, so_far: Exchange) -> Resolution {
    match so_far.described {
        None => Resolution::Unresolved,
        Some(Err(detail)) => Resolution::Failed(PineconeErrorView::Http(detail@)),
        Some(Ok(reply)) => if !is_success(reply.status) {
            Resolution::Failed(PineconeErrorView::IndexNotFound(name))
        } else {
            match so_far.host {
                None => Resolution::Described(reply.body@),
                Some(Err(detail)) => Resolution::Failed(PineconeErrorView::Http(detail@)),
                Some(Ok(host)) => Resolution::Resolved(host@),
            }
        },
    }
}

/// What an answer to a request that `failure` names means: nothing on a
/// status from 200 to 299, else an error with the status and the body as they
/// came.
pub open spec fn verdict(failure: Seq<char>, answer: Result<Reply, String>) -> Result<
    (),
    PineconeErrorView,
> {
    match answer {
        Err(detail) => Err(PineconeErrorView::Http(detail@)),
        Ok(reply) => if is_success(reply.status) {
            Ok(())
        } else {
            Err(
                PineconeErrorView::Api(
                    failure + ": "@ + status_text(reply.status) + " - "@ + reply.body@,
                ),
            )
        },
    }
}

/// Nothing has come back yet for what `action` asks for.
pub open spec fn is_open(action: Action, so_far: Exchange) -> bool {
    match action {
        Action::Describe(_) => so_far.described is None,
        Action::DecodeHost(_) => so_far.host is None,
        Action::Send(_) => so_far.replied is None,
        Action::DecodeMatches(_) => so_far.matches is None,
    }
}

/// `next` asks for nothing that has come back already.
pub open spec fn asks_anew<T>(next: Step<T>, so_far: Exchange) -> bool {
    next matches Step::Next(action) ==> is_open(action, so_far)
}

/// `next` is what resolving the host of `name` asks for after `so_far`,
/// as long as the host is not known: the description, then its decoding, or
/// the failure of either.
pub open spec fn resolving<T>(next: Step<T>, api_key: Seq<char>, name: Seq<char>, so_far: Exchange) -> bool {
    match resolution(name, so_far) {
        Resolution::Unresolved => next matches Step::Next(Action::Describe(request))
            && is_describe_request(request, api_key, name),
        Resolution::Described(body) => next matches Step::Next(Action::DecodeHost(text)) && text@
            == body,
        Resolution::Failed(error) => next matches Step::Done(Err(e)) && e@ == error,
        Resolution::Resolved(_) => true,
    }
}

/// `result` is what `verdict` makes of `answer`.
pub open spec fn judged(result: Result<(), PineconeError>, failure: Seq<char>, answer: Result<Reply, String>) -> bool {
    match result {
        Ok(_) => verdict(failure, answer) is Ok,
        Err(e) => verdict(failure, answer) == Err::<(), PineconeErrorView>(e@),
    }
}

/// `next` is the step of `index_exists` after `so_far`.
pub open spec fn exists_next(next: Step<bool>, api_key: Seq<char>, name: Seq<char>, so_far: Exchange) -> bool {
    match so_far.described {
        None => next matches Step::Next(Action::Describe(request)) && is_describe_request(
            request,
            api_key,
            name,
        ),
        Some(Err(detail)) => next matches Step::Done(Err(e)) && e@ == PineconeErrorView::Http(
            detail@,
        ),
        Some(Ok(reply)) => next matches Step::Done(Ok(exists)) && exists == is_success(
            reply.status,
        ),
    }
}

/// `next` is the step of `create_index` after `so_far`.
pub open spec fn create_next(
    next: Step<()>,
    api_key: Seq<char>,
    name: Seq<char>,
    dimension: u32,
    metric: Seq<char>,
    cloud: Seq<char>,
    region: Seq<char>,
    so_far: Exchange,
) -> bool {
    match so_far.replied {
        None => next matches Step::Next(Action::Send(request)) && is_create_request(
            request,
            api_key,
            name,
            dimension,
            metric,
            cloud,
            region,
        ),
        Some(answer) => next matches Step::Done(result) && judged(
            result,
            "Failed to create index"@,
            answer,
        ),
    }
}

/// `next` is the step of `get_index_host` after `so_far`.
pub open spec fn host_next(next: Step<String>, api_key: Seq<char>, name: Seq<char>, so_far: Exchange) -> bool {
    &&& resolving(next, api_key, name, so_far)
    &&& resolution(name, so_far) matches Resolution::Resolved(host) ==> next matches Step::Done(
        Ok(text),
    ) && text@ == host
}

/// `next` is the step of `upsert` after `so_far`.
pub open spec fn upsert_next(
    next: Step<()>,
    api_key: Seq<char>,
    index_name: Seq<char>,
    records: Seq<EmbeddingRecord>,
    so_far: Exchange,
) -> bool {
    &&& resolving(next, api_key, index_name, so_far)
    &&& resolution(index_name, so_far) matches Resolution::Resolved(host) ==> match so_far.replied {
        None => next matches Step::Next(Action::Send(request)) && is_upsert_request(
            request,
            api_key,
            host,
            records,
        ),
        Some(answer) => next matches Step::Done(result) && judged(
            result,
            "Failed to upsert"@,
            answer,
        ),
    }
}

/// `next` is the step of `query` after `so_far`.
pub open spec fn query_next(
    next: Step<&QueryResponse>,
    api_key: Seq<char>,
    index_name: Seq<char>,
    vector: Seq<Float32>,
    top_k: u32,
    include_metadata: bool,
    so_far: Exchange,
) -> bool {
    &&& resolving(next, api_key, index_name, so_far)
    &&& resolution(index_name, so_far) matches Resolution::Resolved(host) ==> match so_far.replied {
        None => next matches Step::Next(Action::Send(request)) && is_query_request(
            request,
            api_key,
            host,
            vector,
            top_k,
            include_metadata,
        ),
        Some(answer) => match verdict("Failed to query"@, answer) {
            Err(error) => next matches Step::Done(Err(e)) && e@ == error,
            Ok(_) => match so_far.matches {
                None => next matches Step::Next(Action::DecodeMatches(text)) && text@
                    == answer->Ok_0.body@,
                Some(Err(detail)) => next matches Step::Done(Err(e)) && e@
                    == PineconeErrorView::Http(detail@),
                Some(Ok(response)) => next matches Step::Done(Ok(found)) && *found == response,
            },
        },
    }
}

/// Whatever the description came back with, `index_exists` says yes on a
/// status from 200 to 299 and no on every other one: a 404 and a 500 are
/// told apart from a success, and not from each other.
pub proof fn lemma_exists_only_on_success(
    next: Step<bool>,
    api_key: Seq<char>,
    name: Seq<char>,
    so_far: Exchange,
)
    requires
        exists_next(next, api_key, name, so_far),
        so_far.described matches Some(Ok(_)),
    ensures
        next matches Step::Done(Ok(exists)) && (exists <==> 200
            <= so_far.described->Some_0->Ok_0.status < 300),
{
}

/// Calls `http::StatusCode::from_u16`, which takes the codes from 100 to 999,
/// and displays what it made: the number, a space and the canonical reason
/// phrase. The contract names that text and says for which codes there is one.
#[verifier::external_body]
fn status_line_of(code: u16) -> (r: Option<String>)
    ensures
        r is Some <==> 100 <= code <= 999,
        r matches Some(line) ==> line@ == status_line(code),
{
    match reqwest::StatusCode::from_u16(code) {
        Ok(status) => Some(status.to_string()),
        Err(_) => None,
    }
}

/// Whether the status lies between 200 and 299.
pub fn status_is_success(status: u16) -> (r: bool)
    ensures
        r == is_success(status),
{
    200 <= status && status < 300
}

/// The error for an answer with a status outside 200 to 299.
fn api_error(failure: &str, reply: &Reply) -> (r: PineconeError)
    ensures
        r@ == PineconeErrorView::Api(
            failure@ + ": "@ + status_text(reply.status) + " - "@ + reply.body@,
        ),
{
    let mut text = String::new();
    text.append(failure);
    text.append(": ");
    match status_line_of(reply.status) {
        Some(line) => {
            text.append(line.as_str());
        },
        None => {
            push_decimal(&mut text, reply.status as u128);
        },
    }
    text.append(" - ");
    text.append(reply.body.as_str());
    assert(text@ =~= failure@ + ": "@ + status_text(reply.status) + " - "@ + reply.body@);
    PineconeError::Api(text)
}

/// What an answer to a request that `failure` names means.
fn judge(failure: &str, answer: &Result<Reply, String>) -> (r: Result<(), PineconeError>)
    ensures
        judged(r, failure@, *answer),
{
    match answer {
        Err(detail) => Err(PineconeError::Http(copy_of(detail.as_str()))),
        Ok(reply) => if status_is_success(reply.status) {
            Ok(())
        } else {
            Err(api_error(failure, reply))
        },
    }
}

impl PineconeError {
    /// What the error says of itself.
    pub open spec fn message_text(self) -> Seq<char> {
        match self {
            PineconeError::Http(detail) => "HTTP error: "@ + detail@,
            PineconeError::Api(detail) => "API error: "@ + detail@,
            PineconeError::IndexNotFound(name) => "Index not found: "@ + name@,
        }
    }

    /// Describes the error in one line.
    pub fn message(&self) -> (r: String)
        ensures
            r@ == self.message_text(),
    {
        let mut out = String::new();
        match self {
            PineconeError::Http(detail) => {
                out.append("HTTP error: ");
                out.append(detail.as_str());
            },
            PineconeError::Api(detail) => {
                out.append("API error: ");
                out.append(detail.as_str());
            },
            PineconeError::IndexNotFound(name) => {
                out.append("Index not found: ");
                out.append(name.as_str());
            },
        }
        assert(out@ =~= self.message_text());
        out
    }
}

impl Exchange {
    /// An exchange in which nothing has come back yet.
    pub fn new() -> (r: Exchange)
        ensures
            r.described is None,
            r.host is None,
            r.replied is None,
            r.matches is None,
    {
        Exchange { described: None, host: None, replied: None, matches: None }
    }
}

impl PineconeClient {
    /// A client that signs its requests with `api_key`.
    pub fn new(api_key: &str) -> (r: PineconeClient)
        ensures
            r@ == api_key@,
    {
        PineconeClient { api_key: copy_of(api_key) }
    }

    /// The headers of a request, with a content type where it has a body.
    fn headers(&self, with_body: bool) -> (r: Vec<Header>)
        ensures
            with_body ==> json_headers(r@, self@),
            !with_body ==> plain_headers(r@, self@),
    {
        let mut headers: Vec<Header> = Vec::new();
        headers.push(Header { name: copy_of("Api-Key"), value: copy_of(self.api_key.as_str()) });
        headers.push(Header { name: copy_of("Accept"), value: copy_of("application/json") });
        if with_body {
            headers.push(
                Header { name: copy_of("Content-Type"), value: copy_of("application/json") },
            );
        }
        headers
    }

    /// The request that describes the index `name`.
    fn describe(&self, name: &str) -> (r: Request)
        ensures
            is_describe_request(r, self@, name@),
    {
        let mut url = String::new();
        url.append("https://api.pinecone.io/indexes/");
        url.append(name);
        assert(url@ =~= describe_url(name@));
        Request { method: Method::Get, url, headers: self.headers(false), payload: Payload::Empty }
    }

    /// A request with a body for `path` at `host`.
    fn post(&self, host: &str, path: &str, payload: Payload) -> (r: Request)
        ensures
            r.method == Method::Post,
            r.url@ == host_url(host@, path@),
            json_headers(r.headers@, self@),
            r.payload == payload,
    {
        let mut url = String::new();
        url.append("https://");
        url.append(host);
        url.append(path);
        assert(url@ =~= host_url(host@, path@));
        Request { method: Method::Post, url, headers: self.headers(true), payload }
    }

    /// Whether the index `name` exists: asks for its description, and takes
    /// any status from 200 to 299 for a yes and every other status for a no.
    pub fn index_exists(&self, name: &str, so_far: &Exchange) -> (next: Step<bool>)
        ensures
            exists_next(next, self@, name@, *so_far),
            asks_anew(next, *so_far),
    {
        match &so_far.described {
            None => Step::Next(Action::Describe(self.describe(name))),
            Some(Err(detail)) => Step::Done(Err(PineconeError::Http(copy_of(detail.as_str())))),
            Some(Ok(reply)) => Step::Done(Ok(status_is_success(reply.status))),
        }
    }

    /// Creates a serverless index: sends the creation request, and fails
    /// where the answer's status lies outside 200 to 299.
    pub fn create_index(
        &self,
        name: &str,
        dimension: u32,
        metric: &str,
        cloud: &str,
        region: &str,
        so_far: &Exchange,
    ) -> (next: Step<()>)
        ensures
            create_next(next, self@, name@, dimension, metric@, cloud@, region@, *so_far),
            asks_anew(next, *so_far),
    {
        match &so_far.replied {
            None => {
                let body = CreateIndexRequest {
                    name: copy_of(name),
                    dimension,
                    metric: copy_of(metric),
                    spec: ServerlessSpec {
                        serverless: ServerlessConfig {
                            cloud: copy_of(cloud),
                            region: copy_of(region),
                        },
                    },
                };
                Step::Next(
                    Action::Send(
                        Request {
                            method: Method::Post,
                            url: copy_of("https://api.pinecone.io/indexes"),
                            headers: self.headers(true),
                            payload: Payload::CreateIndex(body),
                        },
                    ),
                )
            },
            Some(answer) => Step::Done(judge("Failed to create index", answer)),
        }
    }

    /// Resolves the host of the index `name`: asks for its description, fails
    /// with `IndexNotFound` on a status outside 200 to 299, and has the host
    /// decoded from the body otherwise.
    pub fn get_index_host(&self, name: &str, so_far: &Exchange) -> (next: Step<String>)
        ensures
            host_next(next, self@, name@, *so_far),
            asks_anew(next, *so_far),
    {
        match &so_far.described {
            None => Step::Next(Action::Describe(self.describe(name))),
            Some(Err(detail)) => Step::Done(Err(PineconeError::Http(copy_of(detail.as_str())))),
            Some(Ok(reply)) => {
                if !status_is_success(reply.status) {
                    Step::Done(Err(PineconeError::IndexNotFound(copy_of(name))))
                } else {
                    match &so_far.host {
                        None => Step::Next(Action::DecodeHost(copy_of(reply.body.as_str()))),
                        Some(Err(detail)) => Step::Done(
                            Err(PineconeError::Http(copy_of(detail.as_str()))),
                        ),
                        Some(Ok(host)) => Step::Done(Ok(copy_of(host.as_str()))),
                    }
                }
            },
        }
    }

    /// Upserts `records` into the index `index_name`: resolves the index's
    /// host first, then sends the records there, and fails where the answer's
    /// status lies outside 200 to 299.
    pub fn upsert(&self, index_name: &str, records: &Vec<EmbeddingRecord>, so_far: &Exchange) -> (next:
        Step<()>)
        ensures
            upsert_next(next, self@, index_name@, records@, *so_far),
            asks_anew(next, *so_far),
    {
        let host = match self.get_index_host(index_name, so_far) {
            Step::Next(action) => {
                return Step::Next(action);
            },
            Step::Done(Err(e)) => {
                return Step::Done(Err(e));
            },
            Step::Done(Ok(host)) => host,
        };
        match &so_far.replied {
            None => {
                let mut vectors: Vec<EmbeddingRecord> = Vec::new();
                let mut i: usize = 0;
                while i < records.len()
                    invariant
                        i <= records.len(),
                        vectors@.len() == i,
                        forall|j: int| 0 <= j < i ==> (#[trigger] vectors@[j])@ == records@[j]@,
                    decreases records.len() - i,
                {
                    vectors.push(copy_record(&records[i]));
                    i = i + 1;
                }
                let payload = Payload::Upsert(UpsertRequest { vectors });
                Step::Next(Action::Send(self.post(host.as_str(), "/vectors/upsert", payload)))
            },
            Some(answer) => Step::Done(judge("Failed to upsert", answer)),
        }
    }

    /// Queries the index `index_name` for the `top_k` nearest neighbours of
    /// `vector`: resolves the index's host first, then sends the query there,
    /// fails where the answer's status lies outside 200 to 299, and has the
    /// matches decoded from the body otherwise.
    pub fn query<'a>(
        &self,
        index_name: &str,
        vector: &Vec<Float32>,
        top_k: u32,
        include_metadata: bool,
        so_far: &'a Exchange,
    ) -> (next: Step<&'a QueryResponse>)
        ensures
            query_next(next, self@, index_name@, vector@, top_k, include_metadata, *so_far),
            asks_anew(next, *so_far),
    {
        let host = match self.get_index_host(index_name, so_far) {
            Step::Next(action) => {
                return Step::Next(action);
            },
            Step::Done(Err(e)) => {
                return Step::Done(Err(e));
            },
            Step::Done(Ok(host)) => host,
        };
        match &so_far.replied {
            None => {
                let payload = Payload::Query(
                    QueryRequest { vector: copy_values(vector), top_k, include_metadata },
                );
                Step::Next(Action::Send(self.post(host.as_str(), "/query", payload)))
            },
            Some(Err(detail)) => Step::Done(Err(PineconeError::Http(copy_of(detail.as_str())))),
            Some(Ok(reply)) => {
                if !status_is_success(reply.status) {
                    Step::Done(Err(api_error("Failed to query", reply)))
                } else {
                    match &so_far.matches {
                        None => Step::Next(Action::DecodeMatches(copy_of(reply.body.as_str()))),
                        Some(Err(detail)) => Step::Done(
                            Err(PineconeError::Http(copy_of(detail.as_str()))),
                        ),
                        Some(Ok(response)) => Step::Done(Ok(response)),
                    }
                }
            },
        }
    }
}

} // verus!
