//! The records that travel through the pipeline, and their views.

use crate::number::Float32;
use crate::text::copy_of;
use vstd::prelude::*;
use vstd::string::*;

verus! {

/// What is stored beside an embedding.
#[derive(Clone, Debug, PartialEq, Eq)]
pub struct EmbeddingRecordMetadata {
    pub text: String,
}

/// One chunk of the corpus with its embedding.
#[derive(Clone, Debug, PartialEq, Eq)]
pub struct EmbeddingRecord {
    pub id: String,
    pub values: Vec<Float32>,
    pub metadata: EmbeddingRecordMetadata,
}

/// What a match carries beside its score.
#[derive(Clone, Debug, PartialEq, Eq)]
pub struct QueryMatchMetadata {
    pub text: String,
}

/// One retrieved neighbour.
#[derive(Clone, Debug, PartialEq, Eq)]
pub struct QueryMatch {
    pub id: String,
    pub score: Float32,
    pub metadata: QueryMatchMetadata,
}

/// The neighbours of a prompt, in the order in which the store ranked them.
#[derive(Clone, Debug, PartialEq, Eq)]
pub struct QueryResult {
    pub matches: Vec<QueryMatch>,
}

/// An embedding record as a mathematical value.
pub struct EmbeddingRecordView {
    pub id: Seq<char>,
    pub values: Seq<Float32>,
    pub text: Seq<char>,
}

/// A match as a mathematical value.
pub struct QueryMatchView {
    pub id: Seq<char>,
    pub score: Float32,
    pub text: Seq<char>,
}

impl View for EmbeddingRecordMetadata {
    type V = Seq<char>;

    open spec fn view(&self) -> Seq<char> {
        self.text@
    }
}

impl View for EmbeddingRecord {
    type V = EmbeddingRecordView;

    open spec fn view(&self) -> EmbeddingRecordView {
        EmbeddingRecordView { id: self.id@, values: self.values@, text: self.metadata@ }
    }
}

impl View for QueryMatchMetadata {
    type V = Seq<char>;

    open spec fn view(&self) -> Seq<char> {
        self.text@
    }
}

impl View for QueryMatch {
    type V = QueryMatchView;

    open spec fn view(&self) -> QueryMatchView {
        QueryMatchView { id: self.id@, score: self.score, text: self.metadata@ }
    }
}

impl View for QueryResult {
    type V = Seq<QueryMatchView>;

    open spec fn view(&self) -> Seq<QueryMatchView> {
        self.matches@.map_values(|m: QueryMatch| m@)
    }
}

/// A copy of `values`.
pub fn copy_values(values: &Vec<Float32>) -> (r: Vec<Float32>)
    ensures
        r@ == values@,
{
    let mut out: Vec<Float32> = Vec::new();
    let mut i: usize = 0;
    while i < values.len()
        invariant
            i <= values.len(),
            out@ == values@.take(i as int),
        decreases values.len() - i,
    {
        out.push(values[i]);
        assert(out@ =~= values@.take(i + 1));
        i = i + 1;
    }
    assert(values@.take(i as int) =~= values@);
    out
}

/// A copy of `record`.
pub fn copy_record(record: &EmbeddingRecord) -> (r: EmbeddingRecord)
    ensures
        r@ == record@,
{
    EmbeddingRecord {
        id: copy_of(record.id.as_str()),
        values: copy_values(&record.values),
        metadata: EmbeddingRecordMetadata { text: copy_of(record.metadata.text.as_str()) },
    }
}

} // verus!
