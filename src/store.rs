use vstd::prelude::*;
use vstd::string::StringExecFns;
use crate::embedding::{chunks_view, EmbeddingVector, StorableChunk};

verus! {

/// Number of matches a search asks for unless told otherwise.
pub const DEFAULT_SEARCH_LIMIT: u64 = 10;

/// A similarity search against one collection of the vector store.
#[derive(Debug, Clone)]
pub struct SearchQuery {
    pub collection: String,
    pub vector: EmbeddingVector,
    pub limit: u64,
    /// Whether the stored payload comes back with each match.
    pub with_payload: bool,
    /// Whether the stored vector comes back with each match.
    pub with_vectors: bool,
}

impl EmbeddingVector {
    /// A search for the nearest stored vectors in `collection`: the default
    /// number of matches, payloads returned, vectors left out.
    pub fn into_search(self, collection: &str) -> (r: SearchQuery)
        ensures
            r.collection@ == collection@,
            r.vector@ == self@,
            r.limit == DEFAULT_SEARCH_LIMIT,
            r.with_payload,
            !r.with_vectors,
    {
        SearchQuery {
            collection: String::from_str(collection),
            vector: self,
            limit: DEFAULT_SEARCH_LIMIT,
            with_payload: true,
            with_vectors: false,
        }
    }
}

impl SearchQuery {
    pub fn with_limit(self, limit: u64) -> (r: SearchQuery)
        ensures
            r.limit == limit,
            r.collection@ == self.collection@,
            r.vector@ == self.vector@,
            r.with_payload == self.with_payload,
            r.with_vectors == self.with_vectors,
    {
        SearchQuery { limit, ..self }
    }

    pub fn with_vectors(self, with_vectors: bool) -> (r: SearchQuery)
        ensures
            r.with_vectors == with_vectors,
            r.limit == self.limit,
            r.collection@ == self.collection@,
            r.vector@ == self.vector@,
            r.with_payload == self.with_payload,
    {
        SearchQuery { with_vectors, ..self }
    }
}

/// One batched write of records into a collection.
#[derive(Debug, Clone)]
pub struct UpsertBatch {
    pub collection: String,
    pub points: Vec<StorableChunk>,
}

impl UpsertBatch {
    /// All the records, in order, as one write into `collection`.
    pub fn new(collection: &str, chunks: Vec<StorableChunk>) -> (r: UpsertBatch)
        ensures
            r.collection@ == collection@,
            chunks_view(r.points@) == chunks_view(chunks@),
    {
        UpsertBatch { collection: String::from_str(collection), points: chunks }
    }
}

} // verus!
