use vstd::prelude::*;
use vstd::string::StringExecFns;
use ollama_rs::generation::chat::request::ChatMessageRequest;
use ollama_rs::generation::chat::ChatMessage;
use crate::ollama_api::{assistant_message_of, chat_request_of, system_message_of, user_message_of};

verus! {

/// System prompt that a chat starts with.
pub const DEFAULT_CHAT_SYSTEM_PROMPT: &'static str = "You are a helpful assistant.";

/// Model that a chat is sent to unless another is set.
pub const DEFAULT_CHAT_MODEL: &'static str = "llama2:latest";

/// Who a chat message comes from.
#[derive(Debug, Clone, Copy, PartialEq, Eq, Structural)]
pub enum Role {
    System,
    User,
    Assistant,
}

/// One role-tagged message of a conversation.
#[derive(Debug, Clone)]
pub struct Message {
    pub role: Role,
    pub content: String,
}

/// Abstract contents of a message: its role and its text.
pub open spec fn message_view(m: Message) -> (Role, Seq<char>) {
    (m.role, m.content@)
}

/// Abstract contents of a sequence of messages.
pub open spec fn messages_view(v: Seq<Message>) -> Seq<(Role, Seq<char>)> {
    v.map_values(|m: Message| message_view(m))
}

/// Abstract contents of a [`Chat`].
pub ghost struct ChatModel {
    pub system_prompt: Seq<char>,
    pub messages: Seq<(Role, Seq<char>)>,
    pub model: Seq<char>,
}

/// The messages a chat sends: its system prompt first, then the history.
pub open spec fn request_messages(c: ChatModel) -> Seq<(Role, Seq<char>)> {
    seq![(Role::System, c.system_prompt)] + c.messages
}

/// A message in ollama_rs's form.
pub open spec fn chat_message_of(m: (Role, Seq<char>)) -> ChatMessage {
    match m.0 {
        Role::System => system_message_of(m.1),
        Role::User => user_message_of(m.1),
        Role::Assistant => assistant_message_of(m.1),
    }
}

/// The request ollama_rs is sent for a chat: its model and the messages of
/// [`request_messages`], each in ollama_rs's form, in that order.
pub open spec fn chat_request(c: ChatModel) -> ChatMessageRequest {
    chat_request_of(c.model, request_messages(c).map_values(|m: (Role, Seq<char>)| chat_message_of(m)))
}

/// A conversation with a chat model, built up one message at a time.
#[derive(Debug, Clone)]
pub struct Chat {
    system_prompt: String,
    messages: Vec<Message>,
    model: String,
}

impl View for Chat {
    type V = ChatModel;

    closed spec fn view(&self) -> ChatModel {
        ChatModel {
            system_prompt: self.system_prompt@,
            messages: messages_view(self.messages@),
            model: self.model@,
        }
    }
}

impl Message {
    fn copy_of(&self) -> (r: Message)
        ensures
            message_view(r) == message_view(*self),
    {
        Message { role: self.role, content: self.content.clone() }
    }

    /// The message in ollama_rs's form.
    pub fn into_chat_message(self) -> (r: ChatMessage)
        ensures
            r == chat_message_of(message_view(self)),
    {
        match self.role {
            Role::System => ChatMessage::system(self.content),
            Role::User => ChatMessage::user(self.content),
            Role::Assistant => ChatMessage::assistant(self.content),
        }
    }
}

impl Chat {
    /// A chat with the default system prompt and model and no messages.
    pub fn new() -> (r: Chat)
        ensures
            r@.system_prompt == DEFAULT_CHAT_SYSTEM_PROMPT@,
            r@.messages == Seq::<(Role, Seq<char>)>::empty(),
            r@.model == DEFAULT_CHAT_MODEL@,
    {
        let r = Chat {
            system_prompt: String::from_str(DEFAULT_CHAT_SYSTEM_PROMPT),
            messages: Vec::new(),
            model: String::from_str(DEFAULT_CHAT_MODEL),
        };
        assert(r@.messages =~= Seq::<(Role, Seq<char>)>::empty());
        r
    }

    pub fn set_model(self, model: &str) -> (r: Chat)
        ensures
            r@ == (ChatModel { model: model@, ..self@ }),
    {
        Chat { model: String::from_str(model), ..self }
    }

    pub fn set_system_prompt(self, prompt: &str) -> (r: Chat)
        ensures
            r@ == (ChatModel { system_prompt: prompt@, ..self@ }),
    {
        Chat { system_prompt: String::from_str(prompt), ..self }
    }

    fn push_message(self, role: Role, content: &str) -> (r: Chat)
        ensures
            r@ == (ChatModel { messages: self@.messages.push((role, content@)), ..self@ }),
    {
        let mut c = self;
        c.messages.push(Message { role, content: String::from_str(content) });
        assert(messages_view(c.messages@) =~= messages_view(self.messages@).push(
            (role, content@),
        ));
        c
    }

    /// Appends a user turn to the history.
    pub fn add_user_message(self, message: &str) -> (r: Chat)
        ensures
            r@ == (ChatModel { messages: self@.messages.push((Role::User, message@)), ..self@ }),
    {
        self.push_message(Role::User, message)
    }

    /// Appends an assistant turn to the history.
    pub fn add_assistant_message(self, message: &str) -> (r: Chat)
        ensures
            r@ == (ChatModel {
                messages: self@.messages.push((Role::Assistant, message@)),
                ..self@
            }),
    {
        self.push_message(Role::Assistant, message)
    }

    /// The messages the request carries: a system message with the system
    /// prompt, then every appended message in the order it was added.
    pub fn request_messages(&self) -> (r: Vec<Message>)
        ensures
            messages_view(r@) == request_messages(self@),
    {
        let mut out: Vec<Message> = Vec::new();
        out.push(Message { role: Role::System, content: self.system_prompt.clone() });
        let mut i: usize = 0;
        while i < self.messages.len()
            invariant
                i <= self.messages.len(),
                messages_view(out@) == seq![(Role::System, self.system_prompt@)]
                    + messages_view(self.messages@).take(i as int),
            decreases self.messages.len() - i,
        {
            let m = self.messages[i].copy_of();
            let ghost before = out@;
            out.push(m);
            assert(messages_view(out@) =~= messages_view(before).push(message_view(m)));
            assert(messages_view(self.messages@).take(i + 1) =~= messages_view(
                self.messages@,
            ).take(i as int).push(message_view(self.messages@[i as int])));
            assert(messages_view(out@) =~= seq![(Role::System, self.system_prompt@)]
                + messages_view(self.messages@).take(i + 1));
            i = i + 1;
        }
        assert(messages_view(self.messages@).take(self.messages.len() as int)
            =~= messages_view(self.messages@));
        out
    }

    /// The chat request for this conversation, with the messages of
    /// [`Chat::request_messages`] in that order.
    pub fn into_request(self) -> (r: ChatMessageRequest)
        ensures
            r == chat_request(self@),
    {
        let messages = self.request_messages();
        let ghost wanted = request_messages(self@).map_values(
            |m: (Role, Seq<char>)| chat_message_of(m),
        );
        let mut full: Vec<ChatMessage> = Vec::new();
        let mut i: usize = 0;
        while i < messages.len()
            invariant
                i <= messages@.len(),
                messages_view(messages@) == request_messages(self@),
                wanted == request_messages(self@).map_values(
                    |m: (Role, Seq<char>)| chat_message_of(m),
                ),
                full@ == wanted.take(i as int),
            decreases messages.len() - i,
        {
            let m = messages[i].copy_of();
            assert(message_view(messages@[i as int]) == messages_view(messages@)[i as int]);
            full.push(m.into_chat_message());
            assert(wanted.take(i + 1) =~= wanted.take(i as int).push(wanted[i as int]));
            i = i + 1;
        }
        assert(wanted.take(messages@.len() as int) =~= wanted);
        ChatMessageRequest::new(self.model, full)
    }
}

impl From<Chat> for ChatMessageRequest {
    fn from(chat: Chat) -> (r: ChatMessageRequest) {
        chat.into_request()
    }
}

impl vstd::std_specs::convert::FromSpecImpl<Chat> for ChatMessageRequest {
    open spec fn obeys_from_spec() -> bool {
        true
    }

    open spec fn from_spec(chat: Chat) -> ChatMessageRequest {
        chat_request(chat@)
    }
}

/// However many user and assistant turns were appended, and in whatever
/// order, the request starts with the system message and then carries every
/// turn in append order.
pub proof fn lemma_system_message_first(c: ChatModel, i: int)
    requires
        0 <= i < c.messages.len(),
    ensures
        request_messages(c).len() == c.messages.len() + 1,
        request_messages(c)[0] == (Role::System, c.system_prompt),
        request_messages(c)[i + 1] == c.messages[i],
{
}

} // verus!
