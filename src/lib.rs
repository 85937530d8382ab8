//! Orchestration core for retrieval-augmented generation: prompt models,
//! embeddable entities, ordered batch collection and vector-store requests.

pub mod ollama_api;
pub mod batch;
pub mod chat;
pub mod config;
pub mod embedding;
pub mod error;
pub mod question;
pub mod store;
