use vstd::prelude::*;
use vstd::string::StringExecFns;
use ollama_rs::generation::embeddings::request::GenerateEmbeddingsRequest;
use crate::error::{ErrorKind, RagError};
use crate::ollama_api::{embeddings_request_of, ollama_embeddings_request};
use crate::question::strings_view;

verus! {

/// An embedding: its components as IEEE-754 single-precision bit patterns,
/// so that a vector is carried through unchanged, bit for bit.
#[derive(Debug, Clone, PartialEq, Eq)]
pub struct EmbeddingVector(pub Vec<u32>);

impl View for EmbeddingVector {
    type V = Seq<u32>;

    open spec fn view(&self) -> Seq<u32> {
        self.0@
    }
}

/// The components of each vector of a sequence.
pub open spec fn vectors_view(v: Seq<EmbeddingVector>) -> Seq<Seq<u32>> {
    v.map_values(|e: EmbeddingVector| e@)
}

impl EmbeddingVector {
    pub fn copy_of(&self) -> (r: EmbeddingVector)
        ensures
            r@ == self@,
    {
        let mut out: Vec<u32> = Vec::new();
        let mut i: usize = 0;
        while i < self.0.len()
            invariant
                i <= self.0@.len(),
                out@ == self.0@.take(i as int),
            decreases self.0.len() - i,
        {
            out.push(self.0[i]);
            assert(self.0@.take(i + 1) =~= self.0@.take(i as int).push(self.0@[i as int]));
            i = i + 1;
        }
        assert(self.0@.take(self.0@.len() as int) =~= self.0@);
        EmbeddingVector(out)
    }

    pub fn len(&self) -> (r: usize)
        ensures
            r == self@.len(),
    {
        self.0.len()
    }
}

/// What to embed: the model and the texts, one vector expected per text.
#[derive(Debug, Clone)]
pub struct EmbedRequest {
    pub model: String,
    pub input: Vec<String>,
}

impl EmbedRequest {
    /// The embeddings request in ollama_rs's form, for the same model and texts.
    pub fn into_ollama(self) -> (r: GenerateEmbeddingsRequest)
        ensures
            r == embeddings_request_of(self.model@, strings_view(self.input@)),
    {
        ollama_embeddings_request(self.model, self.input)
    }
}

/// A record ready for the vector store: identifier, the document it belongs
/// to, its text and summary as payload, and its vector.
#[derive(Debug, Clone)]
pub struct StorableChunk {
    pub id: String,
    pub parent_id: String,
    pub text: String,
    pub summary: Option<String>,
    pub vector: EmbeddingVector,
}

/// Abstract contents of a [`StorableChunk`].
pub ghost struct ChunkModel {
    pub id: Seq<char>,
    pub parent_id: Seq<char>,
    pub text: Seq<char>,
    pub summary: Option<Seq<char>>,
    pub vector: Seq<u32>,
}

pub open spec fn opt_string_view(s: Option<String>) -> Option<Seq<char>> {
    match s {
        Some(t) => Some(t@),
        None => None,
    }
}

impl View for StorableChunk {
    type V = ChunkModel;

    open spec fn view(&self) -> ChunkModel {
        ChunkModel {
            id: self.id@,
            parent_id: self.parent_id@,
            text: self.text@,
            summary: opt_string_view(self.summary),
            vector: self.vector@,
        }
    }
}

pub open spec fn chunks_view(v: Seq<StorableChunk>) -> Seq<ChunkModel> {
    v.map_values(|c: StorableChunk| c@)
}

/// The records of an entity: one per attached vector, each carrying that
/// vector unchanged, the text it was computed from, the parent document and
/// the summary.
pub open spec fn upload_matches(
    chunks: Seq<ChunkModel>,
    texts: Seq<Seq<char>>,
    vectors: Seq<Seq<u32>>,
    parent_id: Seq<char>,
    summary: Option<Seq<char>>,
) -> bool {
    &&& chunks.len() == vectors.len()
    &&& forall|i: int|
        0 <= i < chunks.len() ==> {
            &&& (#[trigger] chunks[i]).vector == vectors[i]
            &&& chunks[i].parent_id == parent_id
            &&& chunks[i].summary == summary
            &&& i < texts.len() ==> chunks[i].text == texts[i]
        }
}

/// Something that can be embedded: it says what to embed, takes the computed
/// vectors back, and turns itself into records for the vector store.
pub trait Embeddable: Sized {
    /// The texts to embed, one per sub-unit of the entity.
    spec fn texts(&self) -> Seq<Seq<char>>;

    /// The embedding model to ask.
    spec fn model(&self) -> Seq<char>;

    /// The vectors attached so far, one per text; empty before embedding.
    spec fn vectors(&self) -> Seq<Seq<u32>>;

    /// The request describing what to embed; no I/O is done.
    fn into_embed(&self) -> (r: EmbedRequest)
        ensures
            strings_view(r.input@) == self.texts(),
            r.model@ == self.model(),
    ;

    /// Attaches one vector per text; a count that does not match is refused
    /// and leaves the entity as it was.
    fn set_embedding_vectors(&mut self, embedding_vectors: Vec<EmbeddingVector>) -> (r: Result<
        (),
        RagError,
    >)
        ensures
            r is Ok <==> embedding_vectors@.len() == old(self).texts().len(),
            final(self).texts() == old(self).texts(),
            final(self).model() == old(self).model(),
            r is Ok ==> final(self).vectors() == vectors_view(embedding_vectors@),
            r is Err ==> final(self).vectors() == old(self).vectors() && r->Err_0.kind
                == ErrorKind::ValidationFailed,
    ;

    /// The records to store; refused unless vectors are attached.
    fn prepare_for_upload(self, parent_doc_id: String, doc_summary: Option<String>) -> (r: Result<
        Vec<StorableChunk>,
        RagError,
    >)
        ensures
            r is Err <==> self.vectors().len() == 0,
            r is Err ==> r->Err_0.kind == ErrorKind::ValidationFailed,
            r is Ok ==> upload_matches(
                chunks_view(r->Ok_0@),
                self.texts(),
                self.vectors(),
                parent_doc_id@,
                opt_string_view(doc_summary),
            ),
    ;
}

/// A passage of text embedded as a whole.
#[derive(Debug, Clone)]
pub struct TextChunk {
    pub id: String,
    pub text: String,
    pub model: String,
    pub vector: Option<EmbeddingVector>,
}

impl TextChunk {
    /// A passage with no vector attached yet.
    pub fn new(id: &str, text: &str, model: &str) -> (r: TextChunk)
        ensures
            r.id@ == id@,
            r.text@ == text@,
            r.model@ == model@,
            r.vector is None,
    {
        TextChunk {
            id: String::from_str(id),
            text: String::from_str(text),
            model: String::from_str(model),
            vector: None,
        }
    }
}

impl Embeddable for TextChunk {
    open spec fn texts(&self) -> Seq<Seq<char>> {
        seq![self.text@]
    }

    open spec fn model(&self) -> Seq<char> {
        self.model@
    }

    open spec fn vectors(&self) -> Seq<Seq<u32>> {
        match self.vector {
            Some(v) => seq![v@],
            None => Seq::empty(),
        }
    }

    fn into_embed(&self) -> (r: EmbedRequest) {
        let mut input: Vec<String> = Vec::new();
        input.push(self.text.clone());
        let r = EmbedRequest { model: self.model.clone(), input };
        assert(strings_view(r.input@) =~= seq![self.text@]);
        r
    }

    fn set_embedding_vectors(&mut self, embedding_vectors: Vec<EmbeddingVector>) -> (r: Result<
        (),
        RagError,
    >) {
        if embedding_vectors.len() != 1 {
            return Err(RagError::new(ErrorKind::ValidationFailed, "expected one vector"));
        }
        let v = embedding_vectors[0].copy_of();
        self.vector = Some(v);
        assert(self.vectors() =~= vectors_view(embedding_vectors@));
        Ok(())
    }

    fn prepare_for_upload(self, parent_doc_id: String, doc_summary: Option<String>) -> (r: Result<
        Vec<StorableChunk>,
        RagError,
    >) {
        match self.vector {
            None => Err(RagError::new(ErrorKind::ValidationFailed, "no embedding vector attached")),
            Some(v) => {
                let mut out: Vec<StorableChunk> = Vec::new();
                out.push(
                    StorableChunk {
                        id: self.id,
                        parent_id: parent_doc_id,
                        text: self.text,
                        summary: doc_summary,
                        vector: v,
                    },
                );
                assert(chunks_view(out@)[0] == out@[0]@);
                Ok(out)
            },
        }
    }
}

/// Embedding a text, attaching the vectors that came back and turning the
/// entity into records gives records whose vectors are those vectors,
/// unchanged and in the same order.
pub proof fn lemma_vector_round_trip(
    chunks: Seq<ChunkModel>,
    texts: Seq<Seq<char>>,
    attached: Seq<EmbeddingVector>,
    parent_id: Seq<char>,
    summary: Option<Seq<char>>,
    i: int,
)
    requires
        upload_matches(chunks, texts, vectors_view(attached), parent_id, summary),
        0 <= i < attached.len(),
    ensures
        chunks[i].vector == attached[i]@,
{
}

} // verus!
