//! What the scoring model is asked: the instructions, the question and the
//! fragment, as the messages of one request.

use vstd::prelude::*;
use vstd::string::StringExecFns;

verus! {

/// The instructions and limits that the scoring model is given unless
/// others are chosen.
#[derive(Clone, Copy, Debug)]
pub struct DefaultAiQueryConfig;

/// One message of a request: who speaks, and what is said.
#[derive(Debug, Clone)]
pub struct ChatRequestMessage {
    pub role: String,
    pub content: String,
}

/// A request for one score.
#[derive(Debug, Clone)]
pub struct ChatRequest {
    pub model: String,
    pub messages: Vec<ChatRequestMessage>,
    pub max_completion_tokens: usize,
    pub stream: bool,
    /// The form that the answer has to take, as JSON text.
    pub response_format: String,
}

/// What all requests of a run have in common.
#[derive(Debug, Clone)]
pub struct ChatRequestFactory {
    pub model: String,
    pub system_prompt: String,
    pub response_format: String,
    pub max_tokens: usize,
    pub question: String,
}

/// The number of tokens that an answer may have.
pub const DEFAULT_MAX_TOKENS: usize = 10000;

/// The instructions for the model.
pub open spec fn default_system_prompt() -> Seq<char> {
    "You are an evaluation model. For the output use the provided schema. Make the score a floating point number in the range 0 to 1 with up to three decimal places. The number must measure how strongly the question stated in the system prompt applies to the code fragment provided in the user prompt. The code is cut arbitrarily from the source file. Use the scale as follows: 0.000 → the statement is entirely false for the code. 0.250 → weak indication. 0.500 → partially true / ambiguous. 0.750 → strongly supported. 1.000 → fully and unambiguously true. Do not default to the given values, but spread your output value across the full range from 0 to 1 interpolating between the values according to your assessment."@
}

/// The form of the answer: an object with a reason and a score, and nothing
/// else.
pub open spec fn default_response_format() -> Seq<char> {
    "{\"type\":\"json_schema\",\"json_schema\":{\"strict\":true,\"name\":\"score\",\"schema\":{\"type\":\"object\",\"additionalProperties\":false,\"properties\":{\"reason\":{\"type\":\"string\"},\"score\":{\"type\":\"number\"}},\"required\":[\"reason\",\"score\"]}}}"@
}

/// The role of the message that instructs the model.
pub open spec fn system_role() -> Seq<char> {
    "system"@
}

/// The role of the message that holds the fragment.
pub open spec fn user_role() -> Seq<char> {
    "user"@
}

/// The words between the instructions and the question.
pub open spec fn question_lead() -> Seq<char> {
    " Question: "@
}

/// The path of the service that completes chats, below the address of the
/// model's server.
pub open spec fn completions_path() -> Seq<char> {
    "/chat/completions"@
}

/// The address that requests are sent to, for a server at `url`.
pub fn completions_url(url: &str) -> (address: String)
    ensures
        address@ == url@ + completions_path(),
{
    let mut address = url.to_owned();
    address.append("/chat/completions");
    address
}

impl DefaultAiQueryConfig {
    /// The instructions for the model.
    pub fn system_prompt(&self) -> (prompt: String)
        ensures
            prompt@ == default_system_prompt(),
    {
        "You are an evaluation model. For the output use the provided schema. Make the score a floating point number in the range 0 to 1 with up to three decimal places. The number must measure how strongly the question stated in the system prompt applies to the code fragment provided in the user prompt. The code is cut arbitrarily from the source file. Use the scale as follows: 0.000 → the statement is entirely false for the code. 0.250 → weak indication. 0.500 → partially true / ambiguous. 0.750 → strongly supported. 1.000 → fully and unambiguously true. Do not default to the given values, but spread your output value across the full range from 0 to 1 interpolating between the values according to your assessment.".to_owned()
    }

    /// The form of the answer, as JSON text.
    pub fn response_format(&self) -> (format: String)
        ensures
            format@ == default_response_format(),
    {
        "{\"type\":\"json_schema\",\"json_schema\":{\"strict\":true,\"name\":\"score\",\"schema\":{\"type\":\"object\",\"additionalProperties\":false,\"properties\":{\"reason\":{\"type\":\"string\"},\"score\":{\"type\":\"number\"}},\"required\":[\"reason\",\"score\"]}}}".to_owned()
    }

    /// The number of tokens that an answer may have.
    pub fn max_tokens(&self) -> (tokens: usize)
        ensures
            tokens == DEFAULT_MAX_TOKENS,
    {
        DEFAULT_MAX_TOKENS
    }
}

impl ChatRequestFactory {
    /// The requests of a run that asks `model` the `question`, under the
    /// given instructions and limits.
    pub fn new(
        model: String,
        system_prompt: String,
        response_format: String,
        max_tokens: usize,
        question: String,
    ) -> (factory: ChatRequestFactory)
        ensures
            factory.model == model,
            factory.system_prompt == system_prompt,
            factory.response_format == response_format,
            factory.max_tokens == max_tokens,
            factory.question == question,
    {
        ChatRequestFactory { model, system_prompt, response_format, max_tokens, question }
    }

    /// Whether `message` is the system's message: the instructions, and after
    /// them the question.
    pub open spec fn is_system_message(&self, message: ChatRequestMessage) -> bool {
        &&& message.role@ == system_role()
        &&& message.content@ == self.system_prompt@ + question_lead() + self.question@
    }

    /// The message that instructs the model and puts the question.
    pub fn create_system_message(&self) -> (message: ChatRequestMessage)
        ensures
            self.is_system_message(message),
    {
        let mut content = self.system_prompt.clone();
        content.append(" Question: ");
        content.append(self.question.as_str());
        ChatRequestMessage { role: "system".to_owned(), content }
    }

    /// The message that holds the fragment.
    pub fn create_user_message(&self, content: String) -> (message: ChatRequestMessage)
        ensures
            message.role@ == user_role(),
            message.content == content,
    {
        ChatRequestMessage { role: "user".to_owned(), content }
    }

    /// The request for the score of `code`: the system's message, then the
    /// fragment as the user's; the answer in one piece and in the given form.
    pub fn create(&self, code: String) -> (request: ChatRequest)
        ensures
            request.model@ == self.model@,
            request.messages@.len() == 2,
            self.is_system_message(request.messages@[0]),
            request.messages@[1].role@ == user_role(),
            request.messages@[1].content == code,
            request.max_completion_tokens == self.max_tokens,
            !request.stream,
            request.response_format@ == self.response_format@,
    {
        let mut messages: Vec<ChatRequestMessage> = Vec::new();
        messages.push(self.create_system_message());
        messages.push(self.create_user_message(code));
        ChatRequest {
            model: self.model.clone(),
            messages,
            max_completion_tokens: self.max_tokens,
            stream: false,
            response_format: self.response_format.clone(),
        }
    }
}

} // verus!
