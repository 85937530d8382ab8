use ollama_rs::error::OllamaError;
use ollama_rs::generation::embeddings::request::EmbeddingsInput;
use rag_core::config::{ollama_settings, parse_port, qdrant_settings};
use rag_core::embedding::{Embeddable, EmbeddingVector, TextChunk};
use rag_core::error::{ErrorKind, RagError};
use rag_core::ollama_api::OllamaFailure;
use rag_core::store::{UpsertBatch, DEFAULT_SEARCH_LIMIT};

fn vector(values: &[u32]) -> EmbeddingVector {
    EmbeddingVector(values.to_vec())
}

#[test]
fn into_embed_names_text_and_model() {
    let chunk = TextChunk::new("id-1", "What is RAG?", "nomic-embed-text");
    let req = chunk.into_embed();
    assert_eq!(req.model, "nomic-embed-text");
    assert_eq!(req.input, vec!["What is RAG?".to_string()]);
    let ollama = req.into_ollama();
    assert_eq!(ollama.model_name, "nomic-embed-text");
    assert_eq!(ollama.input, EmbeddingsInput::Multiple(vec!["What is RAG?".to_string()]));
}

#[test]
fn upload_before_embedding_is_refused() {
    let chunk = TextChunk::new("id-1", "text", "m");
    let err = chunk.prepare_for_upload("doc".to_string(), None).unwrap_err();
    assert_eq!(err.kind, ErrorKind::ValidationFailed);
}

#[test]
fn upload_after_embedding_gives_a_record() {
    let mut chunk = TextChunk::new("id-1", "text", "m");
    chunk.set_embedding_vectors(vec![vector(&[1, 2, 3])]).unwrap();
    let records = chunk.prepare_for_upload("doc".to_string(), Some("summary".to_string())).unwrap();
    assert_eq!(records.len(), 1);
    assert_eq!(records[0].id, "id-1");
    assert_eq!(records[0].parent_id, "doc");
    assert_eq!(records[0].text, "text");
    assert_eq!(records[0].summary, Some("summary".to_string()));
}

#[test]
fn vector_survives_the_round_trip() {
    let components: Vec<u32> = vec![0x3f80_0000, 0xbf00_0000, 0x7fc0_0001, 0];
    let mut chunk = TextChunk::new("id-1", "What is RAG?", "m");
    chunk.set_embedding_vectors(vec![EmbeddingVector(components.clone())]).unwrap();
    let records = chunk.prepare_for_upload("doc".to_string(), None).unwrap();
    assert_eq!(records[0].vector.0, components);
}

#[test]
fn wrong_vector_count_is_refused() {
    let mut chunk = TextChunk::new("id-1", "text", "m");
    let err = chunk.set_embedding_vectors(vec![vector(&[1]), vector(&[2])]).unwrap_err();
    assert_eq!(err.kind, ErrorKind::ValidationFailed);
    assert!(chunk.vector.is_none());
    let err = chunk.set_embedding_vectors(vec![]).unwrap_err();
    assert_eq!(err.kind, ErrorKind::ValidationFailed);
    assert!(chunk.prepare_for_upload("doc".to_string(), None).is_err());
}

#[test]
fn search_defaults() {
    let q = vector(&[7, 8]).into_search("docs");
    assert_eq!(q.collection, "docs");
    assert_eq!(q.vector.0, vec![7, 8]);
    assert_eq!(q.limit, 10);
    assert_eq!(DEFAULT_SEARCH_LIMIT, 10);
    assert!(q.with_payload);
    assert!(!q.with_vectors);
    let q = q.with_limit(1).with_vectors(true);
    assert_eq!(q.limit, 1);
    assert!(q.with_vectors);
    assert!(q.with_payload);
}

#[test]
fn upsert_batch_keeps_records_in_order() {
    let mut records = Vec::new();
    for (i, text) in ["one", "two", "three"].iter().enumerate() {
        let mut chunk = TextChunk::new(&format!("id-{}", i), text, "m");
        chunk.set_embedding_vectors(vec![vector(&[i as u32])]).unwrap();
        records.extend(chunk.prepare_for_upload("parent".to_string(), None).unwrap());
    }
    let batch = UpsertBatch::new("docs", records);
    assert_eq!(batch.collection, "docs");
    assert_eq!(batch.points.len(), 3);
    assert_eq!(batch.points[1].text, "two");
    assert_eq!(batch.points[1].vector.0, vec![1]);
    assert!(batch.points.iter().all(|p| p.parent_id == "parent"));
}

#[test]
fn port_parsing() {
    assert_eq!(parse_port("11434"), Some(11434));
    assert_eq!(parse_port("+80"), Some(80));
    assert_eq!(parse_port("0"), Some(0));
    assert_eq!(parse_port("65535"), Some(65535));
    assert_eq!(parse_port("0065535"), Some(65535));
    assert_eq!(parse_port("65536"), None);
    assert_eq!(parse_port("9999999999999"), None);
    assert_eq!(parse_port(""), None);
    assert_eq!(parse_port("+"), None);
    assert_eq!(parse_port("-1"), None);
    assert_eq!(parse_port("12a"), None);
    assert_eq!(parse_port(" 80"), None);
}

#[test]
fn ollama_settings_fail_fast() {
    let ok = ollama_settings(Some("http://localhost".to_string()), Some("11434".to_string())).unwrap();
    assert_eq!(ok.host, "http://localhost");
    assert_eq!(ok.port, 11434);
    let missing_host = ollama_settings(None, Some("11434".to_string())).unwrap_err();
    assert_eq!(missing_host.kind, ErrorKind::ConfigurationMissing);
    let missing_port = ollama_settings(Some("h".to_string()), None).unwrap_err();
    assert_eq!(missing_port.kind, ErrorKind::ConfigurationMissing);
    let bad_port = ollama_settings(Some("h".to_string()), Some("http".to_string())).unwrap_err();
    assert_eq!(bad_port.kind, ErrorKind::ConfigurationMissing);
}

#[test]
fn qdrant_settings_fail_fast() {
    let ok = qdrant_settings(Some("http://localhost:6334".to_string()), Some("docs".to_string())).unwrap();
    assert_eq!(ok.server, "http://localhost:6334");
    assert_eq!(ok.collection, "docs");
    assert_eq!(
        qdrant_settings(None, Some("docs".to_string())).unwrap_err().kind,
        ErrorKind::ConfigurationMissing
    );
    assert_eq!(
        qdrant_settings(Some("s".to_string()), None).unwrap_err().kind,
        ErrorKind::ConfigurationMissing
    );
}

#[test]
fn ollama_errors_are_classified() {
    let err = RagError::from_ollama(&OllamaError::Other("model not found".to_string()));
    assert_eq!(err.kind(), ErrorKind::BackendRejected);
    assert_eq!(err.message, "model not found");
}

#[test]
fn failure_variants_map_to_kinds() {
    let kinds: Vec<ErrorKind> = [
        OllamaFailure::Reqwest,
        OllamaFailure::Json,
        OllamaFailure::Internal,
        OllamaFailure::ToolCall,
        OllamaFailure::Other,
    ]
    .iter()
    .map(|f| RagError::from_failure(*f, "m".to_string()).kind)
    .collect();
    assert_eq!(
        kinds,
        vec![
            ErrorKind::BackendTransport,
            ErrorKind::ConversionFailed,
            ErrorKind::BackendRejected,
            ErrorKind::BackendRejected,
            ErrorKind::BackendRejected,
        ]
    );
}
