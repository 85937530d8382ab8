use rag_core::batch::{collapse_to_options, Batch};
use rag_core::error::{ErrorKind, RagError};

#[test]
fn batch_keeps_input_order_whatever_completes_first() {
    let mut batch: Batch<u32, RagError> = Batch::new(3);
    assert!(!batch.is_complete());
    batch.record(2, Ok(30));
    batch.record(0, Ok(10));
    assert!(!batch.is_complete());
    batch.record(1, Err(RagError::new(ErrorKind::BackendTransport, "down")));
    assert!(batch.is_complete());
    let out = batch.finish();
    assert_eq!(out.len(), 3);
    assert_eq!(*out[0].as_ref().unwrap(), 10);
    assert_eq!(out[1].as_ref().unwrap_err().kind, ErrorKind::BackendTransport);
    assert_eq!(*out[2].as_ref().unwrap(), 30);
}

#[test]
fn empty_batch_is_complete() {
    let batch: Batch<u32, RagError> = Batch::new(0);
    assert_eq!(batch.len(), 0);
    assert!(batch.is_complete());
    assert!(batch.finish().is_empty());
}

#[test]
fn second_failure_does_not_spoil_the_first() {
    let questions = vec!["What is RAG?", "Define vector search."];
    let mut batch: Batch<String, RagError> = Batch::new(questions.len());
    batch.record(1, Err(RagError::new(ErrorKind::BackendTransport, "connection refused")));
    batch.record(0, Ok("answer1".to_string()));
    let out = batch.finish();
    assert_eq!(out.len(), 2);
    assert_eq!(out[0].as_ref().unwrap(), "answer1");
    let err = out[1].as_ref().unwrap_err();
    assert_eq!(err.kind, ErrorKind::BackendTransport);
    assert_eq!(err.message, "connection refused");
}

#[test]
fn recording_twice_keeps_the_last_outcome() {
    let mut batch: Batch<u32, RagError> = Batch::new(1);
    batch.record(0, Ok(1));
    batch.record(0, Ok(2));
    assert_eq!(*batch.finish()[0].as_ref().unwrap(), 2);
}

#[test]
fn collapse_marks_failures_absent() {
    let results: Vec<Result<u32, RagError>> = vec![
        Ok(1),
        Err(RagError::new(ErrorKind::ConversionFailed, "bad")),
        Ok(3),
        Err(RagError::new(ErrorKind::BackendRejected, "no model")),
    ];
    let out = collapse_to_options(results);
    assert_eq!(out, vec![Some(1), None, Some(3), None]);
}

#[test]
fn collapse_of_nothing_is_nothing() {
    let out = collapse_to_options(Vec::<Result<u8, RagError>>::new());
    assert!(out.is_empty());
}
