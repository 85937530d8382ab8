use ollama_rs::generation::chat::request::ChatMessageRequest;
use ollama_rs::generation::chat::MessageRole;
use rag_core::chat::{Chat, Role};
use rag_core::question::{join_with_newlines, Question, DEFAULT_MODEL, DEFAULT_SYSTEM_PROMPT};

#[test]
fn question_defaults() {
    let q = Question::new("What is RAG?");
    assert_eq!(q.get_system_prompt(), DEFAULT_SYSTEM_PROMPT);
    assert_eq!(q.get_model(), "phi4");
    assert_eq!(DEFAULT_MODEL, "phi4");
    let owned = Question::from_text("What is RAG?".to_string());
    assert_eq!(owned.get_prompt(), q.get_prompt());
}

#[test]
fn prompt_without_context_ends_with_newline() {
    let q = Question::new("What is RAG?").set_system_prompt("Be brief.");
    assert_eq!(q.get_prompt(), "Be brief.\nWhat is RAG?\n");
}

#[test]
fn prompt_joins_context_in_order() {
    let q = Question::new("Q")
        .set_system_prompt("S")
        .set_context(vec!["first".to_string(), "second".to_string(), "third".to_string()]);
    assert_eq!(q.get_prompt(), "S\nQ\nfirst\nsecond\nthird");
}

#[test]
fn prompt_is_deterministic() {
    let q = Question::new("Define vector search.").set_context(vec!["a".to_string(), "b".to_string()]);
    let first = q.get_prompt();
    let second = q.get_prompt();
    assert_eq!(first, second);
    assert_eq!(q.clone().get_prompt(), first);
}

#[test]
fn setters_leave_copies_untouched() {
    let first = Question::new("Q");
    let changed = first.clone().set_model("llama3").set_question("Other").set_system_prompt("New");
    assert_eq!(first.get_model(), "phi4");
    assert_eq!(first.get_system_prompt(), DEFAULT_SYSTEM_PROMPT);
    assert_eq!(changed.get_model(), "llama3");
    assert_eq!(changed.get_system_prompt(), "New");
    assert_eq!(changed.get_prompt(), "New\nOther\n");
}

#[test]
fn join_with_newlines_cases() {
    assert_eq!(join_with_newlines(&vec![]), "");
    assert_eq!(join_with_newlines(&vec!["one".to_string()]), "one");
    assert_eq!(join_with_newlines(&vec!["a".to_string(), "".to_string(), "c".to_string()]), "a\n\nc");
}

#[test]
fn question_request_carries_model_and_prompt() {
    let q = Question::new("What is RAG?").set_model("phi4").set_system_prompt("S");
    let req = q.into_request();
    assert_eq!(req.model_name, "phi4");
    assert_eq!(req.prompt, "S\nWhat is RAG?\n");
}

#[test]
fn chat_system_message_first() {
    let chat = Chat::new()
        .set_system_prompt("sys")
        .add_assistant_message("hello")
        .add_user_message("hi")
        .add_user_message("again");
    let msgs = chat.request_messages();
    assert_eq!(msgs.len(), 4);
    assert_eq!(msgs[0].role, Role::System);
    assert_eq!(msgs[0].content, "sys");
    assert_eq!(msgs[1].role, Role::Assistant);
    assert_eq!(msgs[1].content, "hello");
    assert_eq!(msgs[2].role, Role::User);
    assert_eq!(msgs[2].content, "hi");
    assert_eq!(msgs[3].role, Role::User);
    assert_eq!(msgs[3].content, "again");
}

#[test]
fn chat_without_messages_has_only_system() {
    let msgs = Chat::new().request_messages();
    assert_eq!(msgs.len(), 1);
    assert_eq!(msgs[0].role, Role::System);
    assert_eq!(msgs[0].content, "You are a helpful assistant.");
}

#[test]
fn chat_into_request_keeps_order_and_model() {
    let req = Chat::new()
        .set_model("phi4")
        .add_user_message("u1")
        .add_assistant_message("a1")
        .into_request();
    assert_eq!(req.model_name, "phi4");
    assert_eq!(req.messages.len(), 3);
    assert_eq!(req.messages[0].role, MessageRole::System);
    assert_eq!(req.messages[0].content, "You are a helpful assistant.");
    assert_eq!(req.messages[1].role, MessageRole::User);
    assert_eq!(req.messages[1].content, "u1");
    assert_eq!(req.messages[2].role, MessageRole::Assistant);
    assert_eq!(req.messages[2].content, "a1");
}

#[test]
fn chat_default_model() {
    let req = Chat::new().into_request();
    assert_eq!(req.model_name, "llama2:latest");
}

#[test]
fn chat_converts_into_request() {
    let chat = Chat::new().set_model("phi4").set_system_prompt("sys").add_user_message("u1");
    let req = ChatMessageRequest::from(chat);
    assert_eq!(req.model_name, "phi4");
    assert_eq!(req.messages.len(), 2);
    assert_eq!(req.messages[0].role, MessageRole::System);
    assert_eq!(req.messages[0].content, "sys");
    assert_eq!(req.messages[1].role, MessageRole::User);
    assert_eq!(req.messages[1].content, "u1");
}
