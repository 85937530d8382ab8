use vstd::prelude::*;
use vstd::string::StringExecFns;
use ollama_rs::generation::completion::request::GenerationRequest;
use crate::ollama_api::{generation_request_of, ollama_generation_request};

verus! {

/// System prompt that a question starts with.
pub const DEFAULT_SYSTEM_PROMPT: &'static str =
    "You are a helpful assistant. Answer users question based on provided context.";

/// Model that a question is sent to unless another is set.
pub const DEFAULT_MODEL: &'static str = "phi4";

/// Lines joined with a single newline between consecutive items.
pub open spec fn join_lines(parts: Seq<Seq<char>>) -> Seq<char>
    decreases parts.len(),
{
    if parts.len() == 0 {
        Seq::empty()
    } else if parts.len() == 1 {
        parts[0]
    } else {
        join_lines(parts.drop_last()) + seq!['\n'] + parts.last()
    }
}

/// The character sequences held by a vector of strings.
pub open spec fn strings_view(v: Seq<String>) -> Seq<Seq<char>> {
    v.map_values(|s: String| s@)
}

/// The text sent to the model: system prompt, question and the joined context,
/// one per line.
pub open spec fn render_prompt(m: QuestionModel) -> Seq<char> {
    m.system_prompt + seq!['\n'] + m.question + seq!['\n'] + join_lines(m.context)
}

/// Abstract contents of a [`Question`].
pub ghost struct QuestionModel {
    pub system_prompt: Seq<char>,
    pub question: Seq<char>,
    pub context: Seq<Seq<char>>,
    pub model: Seq<char>,
}

/// A single question to a generation model, with its system prompt and the
/// retrieved context it should be answered from.
#[derive(Debug, Clone)]
pub struct Question {
    system_prompt: String,
    question: String,
    context: Vec<String>,
    model: String,
}

impl View for Question {
    type V = QuestionModel;

    closed spec fn view(&self) -> QuestionModel {
        QuestionModel {
            system_prompt: self.system_prompt@,
            question: self.question@,
            context: strings_view(self.context@),
            model: self.model@,
        }
    }
}

/// Joins the strings with a newline between consecutive items.
pub fn join_with_newlines(parts: &Vec<String>) -> (r: String)
    ensures
        r@ == join_lines(strings_view(parts@)),
{
    let ghost v = strings_view(parts@);
    if parts.len() == 0 {
        return String::new();
    }
    let mut acc = parts[0].clone();
    let mut i: usize = 1;
    assert(v.take(1).drop_last() =~= Seq::<Seq<char>>::empty());
    assert(v.take(1)[0] == v[0]);
    while i < parts.len()
        invariant
            1 <= i <= parts.len(),
            v == strings_view(parts@),
            acc@ == join_lines(v.take(i as int)),
        decreases parts.len() - i,
    {
        proof {
            reveal_strlit("\n");
        }
        acc.append("\n");
        acc.append(parts[i].as_str());
        assert(v.take(i + 1).drop_last() =~= v.take(i as int));
        assert(v.take(i + 1).last() == parts@[i as int]@);
        i = i + 1;
    }
    assert(v.take(parts.len() as int) =~= v);
    acc
}

impl Question {
    /// A question with the default system prompt and model and no context.
    pub fn new(text: &str) -> (r: Question)
        ensures
            r@.system_prompt == DEFAULT_SYSTEM_PROMPT@,
            r@.question == text@,
            r@.context == Seq::<Seq<char>>::empty(),
            r@.model == DEFAULT_MODEL@,
    {
        let r = Question {
            system_prompt: String::from_str(DEFAULT_SYSTEM_PROMPT),
            question: String::from_str(text),
            context: Vec::new(),
            model: String::from_str(DEFAULT_MODEL),
        };
        assert(r@.context =~= Seq::<Seq<char>>::empty());
        r
    }

    /// A question taking ownership of its text, with the defaults of [`Question::new`].
    pub fn from_text(text: String) -> (r: Question)
        ensures
            r@.system_prompt == DEFAULT_SYSTEM_PROMPT@,
            r@.question == text@,
            r@.context == Seq::<Seq<char>>::empty(),
            r@.model == DEFAULT_MODEL@,
    {
        Question { question: text, ..Question::new("") }
    }

    pub fn set_system_prompt(self, prompt: &str) -> (r: Question)
        ensures
            r@ == (QuestionModel { system_prompt: prompt@, ..self@ }),
    {
        Question { system_prompt: String::from_str(prompt), ..self }
    }

    /// The full prompt text; it depends on the question's contents alone.
    pub fn get_prompt(&self) -> (r: String)
        ensures
            r@ == render_prompt(self@),
    {
        proof {
            reveal_strlit("\n");
        }
        let mut out = self.system_prompt.clone();
        out.append("\n");
        out.append(self.question.as_str());
        out.append("\n");
        let context = join_with_newlines(&self.context);
        out.append(context.as_str());
        out
    }

    pub fn set_model(self, model: &str) -> (r: Question)
        ensures
            r@ == (QuestionModel { model: model@, ..self@ }),
    {
        Question { model: String::from_str(model), ..self }
    }

    pub fn set_question(self, question: &str) -> (r: Question)
        ensures
            r@ == (QuestionModel { question: question@, ..self@ }),
    {
        Question { question: String::from_str(question), ..self }
    }

    pub fn set_context(self, context: Vec<String>) -> (r: Question)
        ensures
            r@ == (QuestionModel { context: strings_view(context@), ..self@ }),
    {
        Question { context, ..self }
    }

    pub fn get_system_prompt(&self) -> (r: String)
        ensures
            r@ == self@.system_prompt,
    {
        self.system_prompt.clone()
    }

    pub fn get_model(&self) -> (r: String)
        ensures
            r@ == self@.model,
    {
        self.model.clone()
    }

    /// The completion request for this question: its model and rendered prompt.
    pub fn into_request(self) -> (r: GenerationRequest<'static>)
        ensures
            r == generation_request_of(self@.model, render_prompt(self@)),
    {
        let prompt = self.get_prompt();
        ollama_generation_request(self.model, prompt)
    }
}

/// Rendering a question twice gives the same text: the prompt is a function
/// of the question's contents.
pub proof fn lemma_prompt_deterministic(a: Question, b: Question)
    requires
        a@ == b@,
    ensures
        render_prompt(a@) == render_prompt(b@),
{
}

} // verus!
