//! The entry points, without their I/O: what each does from the first input
//! to the last answer, as steps for a driver to perform.

use crate::constants::CHAT_MODEL;
use crate::context::{
    build_context,
    build_messages,
    context_of,
    user_content,
    ChatMessage,
    Role,
    SYSTEM_PROMPT,
};
use crate::env_load::Config;
use crate::pinecone_client::{
    create_next,
    exists_next,
    is_open,
    is_success,
    upsert_next,
    Action,
    Exchange,
    PineconeClient,
    PineconeError,
    Step,
};
use crate::query_db::{
    is_open_retrieval,
    query_db,
    query_db_next,
    retrieved,
    QueryError,
    Retrieval,
    RetrievalAction,
    RetrievalStep,
};
use crate::text::{copy_of, trim, trimmed};
use crate::types::{EmbeddingRecord, QueryMatchView, QueryResult};
use vstd::prelude::*;
use vstd::string::*;

verus! {

/// Why an entry point gave up.
#[derive(Debug)]
pub enum EntryError {
    /// The prompt is empty once trimmed.
    EmptyPrompt,
    /// The retrieval failed.
    Query(QueryError),
    /// The chat model failed; with its words.
    Chat(String),
    /// The vector store failed.
    Pinecone(PineconeError),
    /// The index to create is there already.
    IndexExists(String),
}

/// The messages for the chat model, and the model to send them to.
#[derive(Debug)]
pub struct ChatRequest {
    pub model: String,
    pub messages: Vec<ChatMessage>,
}

/// What has come back so far while a question is answered.
#[derive(Debug)]
pub struct Conversation {
    /// What the retrieval has brought.
    pub retrieval: Retrieval,
    /// The content of the chat model's first choice, where it has one.
    pub answered: Option<Result<Option<String>, String>>,
}

/// What the driver of an entry point is asked to do.
#[derive(Debug)]
pub enum EntryAction {
    /// Do this for the retrieval and record the outcome in `retrieval`.
    Retrieve(RetrievalAction),
    /// Send the messages to the chat model and record the content of its
    /// first choice in `answered`.
    Chat(ChatRequest),
    /// Do this for the vector store and record the outcome in the exchange.
    Store(Action),
}

/// The next step of an entry point: something to do, or its result.
#[derive(Debug)]
pub enum EntryStep<T> {
    Next(EntryAction),
    Done(Result<T, EntryError>),
}

/// Nothing has come back yet for what `action` asks of a conversation.
pub open spec fn is_open_conversation(action: EntryAction, so_far: Conversation) -> bool {
    match action {
        EntryAction::Retrieve(inner) => is_open_retrieval(inner, so_far.retrieval),
        EntryAction::Chat(_) => so_far.answered is None,
        EntryAction::Store(_) => false,
    }
}

/// What is printed for the chat model's content: the content trimmed, and
/// nothing where there is none.
pub open spec fn answer_text(content: Option<String>) -> Seq<char> {
    match content {
        Some(text) => trimmed(text@),
        None => Seq::empty(),
    }
}

/// `request` puts the question `prompt` to the chat model on the ground of
/// the matches `found`.
pub open spec fn is_grounded_request(
    request: ChatRequest,
    found: Seq<QueryMatchView>,
    prompt: Seq<char>,
) -> bool {
    &&& request.model@ == CHAT_MODEL@
    &&& request.messages@.len() == 2
    &&& request.messages@[0].role == Role::System
    &&& request.messages@[0].content@ == SYSTEM_PROMPT@
    &&& request.messages@[1].role == Role::User
    &&& request.messages@[1].content@ == user_content(context_of(found), prompt)
}

/// `next` is the step of `find_similar` after `so_far`: nothing but the
/// refusal of an empty prompt; else the steps of the retrieval for the
/// trimmed prompt, and its matches at the end.
pub open spec fn find_similar_next(
    next: EntryStep<QueryResult>,
    raw_prompt: Seq<char>,
    config: Config,
    so_far: Retrieval,
) -> bool {
    let prompt = trimmed(raw_prompt);
    if prompt.len() == 0 {
        next matches EntryStep::Done(Err(EntryError::EmptyPrompt))
    } else {
        match next {
            EntryStep::Next(EntryAction::Retrieve(action)) => query_db_next(
                RetrievalStep::Next(action),
                prompt,
                config,
                so_far,
            ),
            EntryStep::Done(Err(EntryError::Query(e))) => query_db_next(
                RetrievalStep::Done(Err(e)),
                prompt,
                config,
                so_far,
            ),
            EntryStep::Done(Ok(result)) => retrieved(config, so_far) == Some(result@),
            _ => false,
        }
    }
}

/// `next` is the step of `ask` after `so_far`: nothing but the refusal of an
/// empty prompt; else the steps of the retrieval for the trimmed prompt, then
/// the grounded request to the chat model, and at the end the trimmed
/// content of its answer.
pub open spec fn ask_next(
    next: EntryStep<String>,
    raw_prompt: Seq<char>,
    config: Config,
    so_far: Conversation,
) -> bool {
    let prompt = trimmed(raw_prompt);
    if prompt.len() == 0 {
        next matches EntryStep::Done(Err(EntryError::EmptyPrompt))
    } else {
        match next {
            EntryStep::Next(EntryAction::Retrieve(action)) => query_db_next(
                RetrievalStep::Next(action),
                prompt,
                config,
                so_far.retrieval,
            ),
            EntryStep::Done(Err(EntryError::Query(e))) => query_db_next(
                RetrievalStep::Done(Err(e)),
                prompt,
                config,
                so_far.retrieval,
            ),
            EntryStep::Next(EntryAction::Chat(request)) => {
                &&& retrieved(config, so_far.retrieval) matches Some(found)
                &&& so_far.answered is None
                &&& is_grounded_request(request, found, prompt)
            },
            EntryStep::Done(Err(EntryError::Chat(detail))) => {
                &&& retrieved(config, so_far.retrieval) is Some
                &&& so_far.answered matches Some(Err(words))
                &&& detail@ == words@
            },
            EntryStep::Done(Ok(answer)) => {
                &&& retrieved(config, so_far.retrieval) is Some
                &&& so_far.answered matches Some(Ok(content))
                &&& answer@ == answer_text(content)
            },
            _ => false,
        }
    }
}

/// `next` is the step of `make_db` after `so_far`: first whether the
/// configured index exists; the refusal where it does; else the steps of its
/// creation.
pub open spec fn make_db_next(next: EntryStep<()>, config: Config, so_far: Exchange) -> bool {
    match so_far.described {
        Some(Ok(reply)) => if is_success(reply.status) {
            next matches EntryStep::Done(Err(EntryError::IndexExists(name))) && name@
                == config.pinecone_index_name@
        } else {
            match next {
                EntryStep::Next(EntryAction::Store(action)) => create_next(
                    Step::<()>::Next(action),
                    config.pinecone_api_key@,
                    config.pinecone_index_name@,
                    config.pinecone_index_dimension,
                    config.pinecone_index_metric@,
                    config.pinecone_index_cloud@,
                    config.pinecone_index_region@,
                    so_far,
                ),
                EntryStep::Done(Err(EntryError::Pinecone(e))) => create_next(
                    Step::<()>::Done(Err(e)),
                    config.pinecone_api_key@,
                    config.pinecone_index_name@,
                    config.pinecone_index_dimension,
                    config.pinecone_index_metric@,
                    config.pinecone_index_cloud@,
                    config.pinecone_index_region@,
                    so_far,
                ),
                EntryStep::Done(Ok(_)) => create_next(
                    Step::<()>::Done(Ok(())),
                    config.pinecone_api_key@,
                    config.pinecone_index_name@,
                    config.pinecone_index_dimension,
                    config.pinecone_index_metric@,
                    config.pinecone_index_cloud@,
                    config.pinecone_index_region@,
                    so_far,
                ),
                _ => false,
            }
        },
        _ => match next {
            EntryStep::Next(EntryAction::Store(action)) => exists_next(
                Step::<bool>::Next(action),
                config.pinecone_api_key@,
                config.pinecone_index_name@,
                so_far,
            ),
            EntryStep::Done(Err(EntryError::Pinecone(e))) => exists_next(
                Step::<bool>::Done(Err(e)),
                config.pinecone_api_key@,
                config.pinecone_index_name@,
                so_far,
            ),
            _ => false,
        },
    }
}

/// `next` is the step of `upload_embeddings` after `so_far`: the steps of
/// the upsert of `records` into the configured index.
pub open spec fn upload_next(
    next: EntryStep<()>,
    config: Config,
    records: Seq<EmbeddingRecord>,
    so_far: Exchange,
) -> bool {
    match next {
        EntryStep::Next(EntryAction::Store(action)) => upsert_next(
            Step::<()>::Next(action),
            config.pinecone_api_key@,
            config.pinecone_index_name@,
            records,
            so_far,
        ),
        EntryStep::Done(Err(EntryError::Pinecone(e))) => upsert_next(
            Step::<()>::Done(Err(e)),
            config.pinecone_api_key@,
            config.pinecone_index_name@,
            records,
            so_far,
        ),
        EntryStep::Done(Ok(_)) => upsert_next(
            Step::<()>::Done(Ok(())),
            config.pinecone_api_key@,
            config.pinecone_index_name@,
            records,
            so_far,
        ),
        _ => false,
    }
}

/// An empty prompt ends `find_similar` and `ask` at once, whatever has come
/// back: with the refusal, and so without a single action for the driver.
pub proof fn lemma_empty_prompt_asks_nothing(
    raw_prompt: Seq<char>,
    config: Config,
    retrieval: Retrieval,
    conversation: Conversation,
    found: EntryStep<QueryResult>,
    answered: EntryStep<String>,
)
    requires
        trimmed(raw_prompt).len() == 0,
        find_similar_next(found, raw_prompt, config, retrieval),
        ask_next(answered, raw_prompt, config, conversation),
    ensures
        found matches EntryStep::Done(Err(EntryError::EmptyPrompt)),
        answered matches EntryStep::Done(Err(EntryError::EmptyPrompt)),
        !(found is Next),
        !(answered is Next),
{
}

impl EntryError {
    /// What the error says of itself.
    pub open spec fn message_text(self) -> Seq<char> {
        match self {
            EntryError::EmptyPrompt => "Prompt is empty"@,
            EntryError::Query(inner) => inner.message_text(),
            EntryError::Chat(detail) => detail@,
            EntryError::Pinecone(inner) => inner.message_text(),
            EntryError::IndexExists(name) => name@ + " already exists"@,
        }
    }

    /// Describes the error in one line.
    pub fn message(&self) -> (r: String)
        ensures
            r@ == self.message_text(),
    {
        match self {
            EntryError::EmptyPrompt => copy_of("Prompt is empty"),
            EntryError::Query(inner) => inner.message(),
            EntryError::Chat(detail) => copy_of(detail.as_str()),
            EntryError::Pinecone(inner) => inner.message(),
            EntryError::IndexExists(name) => {
                let mut out = copy_of(name.as_str());
                out.append(" already exists");
                out
            },
        }
    }
}

impl Conversation {
    /// A conversation in which nothing has come back yet.
    pub fn new() -> (r: Conversation)
        ensures
            r.retrieval.embedded is None,
            r.retrieval.exchange.described is None,
            r.retrieval.exchange.host is None,
            r.retrieval.exchange.replied is None,
            r.retrieval.exchange.matches is None,
            r.answered is None,
    {
        Conversation { retrieval: Retrieval::new(), answered: None }
    }
}

/// The prompt that was typed, trimmed; none where nothing is left of it.
pub fn read_prompt(raw_prompt: &str) -> (r: Option<&str>)
    ensures
        match r {
            Some(prompt) => prompt@ == trimmed(raw_prompt@) && prompt@.len() > 0,
            None => trimmed(raw_prompt@).len() == 0,
        },
{
    let prompt = trim(raw_prompt);
    if prompt.is_empty() {
        None
    } else {
        Some(prompt)
    }
}

/// What is printed for the chat model's content.
pub fn answer_of(content: &Option<String>) -> (r: String)
    ensures
        r@ == answer_text(*content),
{
    match content {
        Some(text) => copy_of(trim(text.as_str())),
        None => String::new(),
    }
}

/// Finds the neighbours of the prompt that was typed. An empty prompt is
/// refused before anything is asked of any service.
pub fn find_similar(raw_prompt: &str, config: &Config, so_far: &Retrieval) -> (next: EntryStep<
    QueryResult,
>)
    requires
        so_far.embedded matches Some(Ok(vectors)) ==> vectors@.len() > 0,
    ensures
        find_similar_next(next, raw_prompt@, *config, *so_far),
        next matches EntryStep::Next(action) ==> action matches EntryAction::Retrieve(inner)
            && is_open_retrieval(inner, *so_far),
{
    let prompt = match read_prompt(raw_prompt) {
        Some(prompt) => prompt,
        None => {
            return EntryStep::Done(Err(EntryError::EmptyPrompt));
        },
    };
    match query_db(prompt, config, so_far) {
        RetrievalStep::Next(action) => EntryStep::Next(EntryAction::Retrieve(action)),
        RetrievalStep::Done(Err(e)) => EntryStep::Done(Err(EntryError::Query(e))),
        RetrievalStep::Done(Ok(result)) => EntryStep::Done(Ok(result)),
    }
}

/// Answers the prompt that was typed on the ground of its neighbours. An
/// empty prompt is refused before anything is asked of any service.
pub fn ask(raw_prompt: &str, config: &Config, so_far: &Conversation) -> (next: EntryStep<String>)
    requires
        so_far.retrieval.embedded matches Some(Ok(vectors)) ==> vectors@.len() > 0,
    ensures
        ask_next(next, raw_prompt@, *config, *so_far),
        next matches EntryStep::Next(action) ==> is_open_conversation(action, *so_far),
{
    let prompt = match read_prompt(raw_prompt) {
        Some(prompt) => prompt,
        None => {
            return EntryStep::Done(Err(EntryError::EmptyPrompt));
        },
    };
    let result = match query_db(prompt, config, &so_far.retrieval) {
        RetrievalStep::Next(action) => {
            return EntryStep::Next(EntryAction::Retrieve(action));
        },
        RetrievalStep::Done(Err(e)) => {
            return EntryStep::Done(Err(EntryError::Query(e)));
        },
        RetrievalStep::Done(Ok(result)) => result,
    };
    match &so_far.answered {
        None => {
            let context = build_context(&result);
            let messages = build_messages(context.as_str(), prompt);
            EntryStep::Next(
                EntryAction::Chat(ChatRequest { model: copy_of(CHAT_MODEL), messages }),
            )
        },
        Some(Err(words)) => EntryStep::Done(Err(EntryError::Chat(copy_of(words.as_str())))),
        Some(Ok(content)) => EntryStep::Done(Ok(answer_of(content))),
    }
}

/// Creates the configured index, and refuses where it exists already.
pub fn make_db(config: &Config, so_far: &Exchange) -> (next: EntryStep<()>)
    ensures
        make_db_next(next, *config, *so_far),
        next matches EntryStep::Next(action) ==> action matches EntryAction::Store(inner)
            && is_open(inner, *so_far),
{
    let client = PineconeClient::new(config.pinecone_api_key.as_str());
    match client.index_exists(config.pinecone_index_name.as_str(), so_far) {
        Step::Next(action) => {
            return EntryStep::Next(EntryAction::Store(action));
        },
        Step::Done(Err(e)) => {
            return EntryStep::Done(Err(EntryError::Pinecone(e)));
        },
        Step::Done(Ok(exists)) => {
            if exists {
                return EntryStep::Done(
                    Err(EntryError::IndexExists(copy_of(config.pinecone_index_name.as_str()))),
                );
            }
        },
    }
    match client.create_index(
        config.pinecone_index_name.as_str(),
        config.pinecone_index_dimension,
        config.pinecone_index_metric.as_str(),
        config.pinecone_index_cloud.as_str(),
        config.pinecone_index_region.as_str(),
        so_far,
    ) {
        Step::Next(action) => EntryStep::Next(EntryAction::Store(action)),
        Step::Done(Err(e)) => EntryStep::Done(Err(EntryError::Pinecone(e))),
        Step::Done(Ok(done)) => EntryStep::Done(Ok(done)),
    }
}

/// Upserts `records` into the configured index.
pub fn upload_embeddings(config: &Config, records: &Vec<EmbeddingRecord>, so_far: &Exchange) -> (next:
    EntryStep<()>)
    ensures
        upload_next(next, *config, records@, *so_far),
        next matches EntryStep::Next(action) ==> action matches EntryAction::Store(inner)
            && is_open(inner, *so_far),
{
    let client = PineconeClient::new(config.pinecone_api_key.as_str());
    match client.upsert(config.pinecone_index_name.as_str(), records, so_far) {
        Step::Next(action) => EntryStep::Next(EntryAction::Store(action)),
        Step::Done(Err(e)) => EntryStep::Done(Err(EntryError::Pinecone(e))),
        Step::Done(Ok(done)) => EntryStep::Done(Ok(done)),
    }
}

} // verus!
