//! The parts of ollama_rs that the library calls, with what it relies on.
use vstd::prelude::*;
use ollama_rs::error::OllamaError;
use ollama_rs::generation::chat::request::ChatMessageRequest;
use ollama_rs::generation::chat::ChatMessage;
use ollama_rs::generation::completion::request::GenerationRequest;
use ollama_rs::generation::embeddings::request::GenerateEmbeddingsRequest;

verus! {

#[verifier::external_type_specification]
#[verifier::external_body]
pub struct ExGenerationRequest<'a>(GenerationRequest<'a>);

/// The completion request that `GenerationRequest::new` builds for a model and
/// a prompt.
pub uninterp spec fn generation_request_of(model: Seq<char>, prompt: Seq<char>) -> GenerationRequest<'static>;

/// Relies on ollama_rs's `GenerationRequest::new`: a completion request for
/// the named model with the prompt text, every option left unset; the same
/// model and prompt give the same request.
#[verifier::external_body]
pub(crate) fn ollama_generation_request(model: String, prompt: String) -> (r: GenerationRequest<'static>)
    ensures
        r == generation_request_of(model@, prompt@),
{
    GenerationRequest::new(model, prompt)
}

#[verifier::external_type_specification]
#[verifier::external_body]
pub struct ExChatMessage(ChatMessage);

#[verifier::external_type_specification]
#[verifier::external_body]
pub struct ExChatMessageRequest(ChatMessageRequest);

/// The message that `ChatMessage::system` builds for a text.
pub uninterp spec fn system_message_of(content: Seq<char>) -> ChatMessage;

/// The message that `ChatMessage::user` builds for a text.
pub uninterp spec fn user_message_of(content: Seq<char>) -> ChatMessage;

/// The message that `ChatMessage::assistant` builds for a text.
pub uninterp spec fn assistant_message_of(content: Seq<char>) -> ChatMessage;

/// The request that `ChatMessageRequest::new` builds for a model and messages.
pub uninterp spec fn chat_request_of(model: Seq<char>, messages: Seq<ChatMessage>) -> ChatMessageRequest;

/// Relies on ollama_rs's `ChatMessage::system`: a message in the system role
/// holding the text; the same text gives the same message.
pub assume_specification[ ChatMessage::system ](content: String) -> (r: ChatMessage)
    ensures
        r == system_message_of(content@),
;

/// Relies on ollama_rs's `ChatMessage::user`: a message in the user role
/// holding the text; the same text gives the same message.
pub assume_specification[ ChatMessage::user ](content: String) -> (r: ChatMessage)
    ensures
        r == user_message_of(content@),
;

/// Relies on ollama_rs's `ChatMessage::assistant`: a message in the assistant
/// role holding the text; the same text gives the same message.
pub assume_specification[ ChatMessage::assistant ](content: String) -> (r: ChatMessage)
    ensures
        r == assistant_message_of(content@),
;

/// Relies on ollama_rs's `ChatMessageRequest::new`: a chat request for the
/// named model that sends the messages in the order given, every option left
/// unset.
pub assume_specification[ ChatMessageRequest::new ](
    model_name: String,
    messages: Vec<ChatMessage>,
) -> (r: ChatMessageRequest)
    ensures
        r == chat_request_of(model_name@, messages@),
;

#[verifier::external_type_specification]
#[verifier::external_body]
pub struct ExGenerateEmbeddingsRequest(GenerateEmbeddingsRequest);

/// The request that `GenerateEmbeddingsRequest::new` builds for a model and
/// several texts.
pub uninterp spec fn embeddings_request_of(model: Seq<char>, input: Seq<Seq<char>>) -> GenerateEmbeddingsRequest;

/// Relies on ollama_rs's `GenerateEmbeddingsRequest::new`, with the texts as
/// `EmbeddingsInput::Multiple`: an embeddings request for the named model over
/// the texts, one vector asked per text, every option left unset.
#[verifier::external_body]
pub(crate) fn ollama_embeddings_request(model: String, input: Vec<String>) -> (r: GenerateEmbeddingsRequest)
    ensures
        r == embeddings_request_of(model@, input@.map_values(|s: String| s@)),
{
    GenerateEmbeddingsRequest::new(model, input.into())
}

#[verifier::external_type_specification]
#[verifier::external_body]
pub struct ExOllamaError(OllamaError);

/// Which variant of ollama_rs's `OllamaError` a failure is.
#[derive(Debug, Clone, Copy, PartialEq, Eq, Structural)]
pub enum OllamaFailure {
    ToolCall,
    Json,
    Reqwest,
    Internal,
    Other,
}

/// The variant of an `OllamaError`.
pub uninterp spec fn ollama_failure_of(e: OllamaError) -> OllamaFailure;

/// Relies on ollama_rs's `OllamaError` having exactly these five variants.
#[verifier::external_body]
pub(crate) fn ollama_failure(e: &OllamaError) -> (r: OllamaFailure)
    ensures
        r == ollama_failure_of(*e),
{
    match e {
        OllamaError::ToolCallError(_) => OllamaFailure::ToolCall,
        OllamaError::JsonError(_) => OllamaFailure::Json,
        OllamaError::ReqwestError(_) => OllamaFailure::Reqwest,
        OllamaError::InternalError(_) => OllamaFailure::Internal,
        OllamaError::Other(_) => OllamaFailure::Other,
    }
}

/// Relies on the `Display` impl of ollama_rs's `OllamaError` for its message.
#[verifier::external_body]
pub(crate) fn ollama_error_message(e: &OllamaError) -> String {
    e.to_string()
}

} // verus!
