//! From a source text to embedding records: the chunks, the request for
//! their embeddings, and the records made of both.

use crate::constants::EMBEDDING_MODEL;
use crate::number::Float32;
use crate::query_db::EmbeddingRequest;
use crate::text::{copy_of, decimal, decimal_string, lemma_decimal_injective, texts_of};
use crate::types::{copy_values, EmbeddingRecord, EmbeddingRecordMetadata, EmbeddingRecordView};
use vstd::prelude::*;
use vstd::string::*;

verus! {

/// `regex::Error`: why a pattern was refused, carried as it came.
#[verifier::external_type_specification]
#[verifier::external_body]
pub struct ExRegexError(regex::Error);

/// What parts one chunk from the next: two or more line feeds in a row, with
/// or without a carriage return in front.
pub const CHUNK_SEPARATOR: &'static str = "\\n{2,}|\\r\\n{2,}";

/// Why a text could not be chunked.
#[derive(Debug)]
pub enum ChunkError {
    /// The separator was refused as a pattern.
    Pattern(regex::Error),
}

/// Whether `regex::Regex::new` accepts `pattern`: it is a pattern in the
/// crate's syntax, and what it compiles to stays under the crate's default
/// size limit.
pub uninterp spec fn regex_accepts(pattern: Seq<char>) -> bool;

/// The pieces into which the matches of `pattern` part `haystack`, as
/// `regex::Regex::split` yields them.
pub uninterp spec fn regex_split(pattern: Seq<char>, haystack: Seq<char>) -> Seq<Seq<char>>;

/// Calls `regex::Regex::new` on `pattern` and, where that gave a regex,
/// `regex::Regex::split` on `haystack`. Whether the pattern is accepted
/// depends on the pattern alone, and the split cannot fail: the contract
/// names the one and the other, and says of neither what it is.
#[verifier::external_body]
fn split_by(pattern: &str, haystack: &str) -> (r: Result<Vec<String>, regex::Error>)
    ensures
        r is Ok <==> regex_accepts(pattern@),
        r matches Ok(pieces) ==> texts_of(pieces@) == regex_split(pattern@, haystack@),
{
    let re = regex::Regex::new(pattern)?;
    Ok(re.split(haystack).map(String::from).collect())
}

/// The record of the chunk at position `i`: its id is `i` in decimal.
pub open spec fn record_of(i: nat, values: Seq<Float32>, text: Seq<char>) -> EmbeddingRecordView {
    EmbeddingRecordView { id: decimal(i), values, text }
}

/// Splits a text at the matches of `separator`: succeeds exactly where
/// `separator` is accepted as a pattern, whatever the text, and then yields
/// the pieces between its matches, in their order.
pub fn split_at(separator: &str, text: &str) -> (r: Result<Vec<String>, ChunkError>)
    ensures
        r is Ok <==> regex_accepts(separator@),
        r matches Ok(pieces) ==> texts_of(pieces@) == regex_split(separator@, text@),
{
    match split_by(separator, text) {
        Ok(pieces) => Ok(pieces),
        Err(e) => Err(ChunkError::Pattern(e)),
    }
}

/// Splits a text into its chunks, at the matches of `CHUNK_SEPARATOR`. Whether
/// it succeeds hangs on that one pattern, never on the text.
pub fn split_chunks(text: &str) -> (r: Result<Vec<String>, ChunkError>)
    ensures
        r is Ok <==> regex_accepts(CHUNK_SEPARATOR@),
        r matches Ok(chunks) ==> texts_of(chunks@) == regex_split(CHUNK_SEPARATOR@, text@),
{
    split_at(CHUNK_SEPARATOR, text)
}

/// The request for the embeddings of all `chunks` at once, in their order.
pub fn embedding_request(chunks: &Vec<String>) -> (r: EmbeddingRequest)
    ensures
        r.model@ == EMBEDDING_MODEL@,
        texts_of(r.input@) == texts_of(chunks@),
{
    let mut input: Vec<String> = Vec::new();
    let mut i: usize = 0;
    while i < chunks.len()
        invariant
            i <= chunks.len(),
            input@.len() == i,
            forall|j: int| 0 <= j < i ==> (#[trigger] input@[j])@ == chunks@[j]@,
        decreases chunks.len() - i,
    {
        input.push(copy_of(chunks[i].as_str()));
        i = i + 1;
    }
    assert(texts_of(input@) =~= texts_of(chunks@));
    EmbeddingRequest { model: copy_of(EMBEDDING_MODEL), input }
}

/// Makes one record of each embedding and the chunk at its position: the id
/// is the position in decimal, counted from zero, so no two records share
/// one. There must be a chunk for every embedding.
pub fn make_records(chunks: &Vec<String>, embeddings: &Vec<Vec<Float32>>) -> (r: Vec<
    EmbeddingRecord,
>)
    requires
        embeddings.len() <= chunks.len(),
    ensures
        r@.len() == embeddings.len(),
        forall|i: int|
            0 <= i < r@.len() ==> (#[trigger] r@[i])@ == record_of(
                i as nat,
                embeddings@[i]@,
                chunks@[i]@,
            ),
        forall|i: int, j: int|
            0 <= i < j < r@.len() ==> (#[trigger] r@[i]).id@ != (#[trigger] r@[j]).id@,
{
    let mut records: Vec<EmbeddingRecord> = Vec::new();
    let mut i: usize = 0;
    while i < embeddings.len()
        invariant
            i <= embeddings.len() <= chunks.len(),
            records@.len() == i,
            forall|j: int|
                0 <= j < i ==> (#[trigger] records@[j])@ == record_of(
                    j as nat,
                    embeddings@[j]@,
                    chunks@[j]@,
                ),
        decreases embeddings.len() - i,
    {
        records.push(
            EmbeddingRecord {
                id: decimal_string(i as u128),
                values: copy_values(&embeddings[i]),
                metadata: EmbeddingRecordMetadata { text: copy_of(chunks[i].as_str()) },
            },
        );
        i = i + 1;
    }
    proof {
        assert forall|a: int, b: int| 0 <= a < b < records@.len() implies (
        #[trigger] records@[a]).id@ != (#[trigger] records@[b]).id@ by {
            assert(records@[a]@.id == decimal(a as nat));
            assert(records@[b]@.id == decimal(b as nat));
            if decimal(a as nat) == decimal(b as nat) {
                lemma_decimal_injective(a as nat, b as nat);
            }
        }
    }
    records
}

} // verus!
