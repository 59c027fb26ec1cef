//! The chat-completion data model and the request that is sent.

use crate::text::occurs_at;
use vstd::prelude::*;

verus! {

/// Who speaks in a turn of the conversation.
#[derive(Clone, Copy, Debug, PartialEq, Eq, Structural)]
pub enum Role {
    System,
    User,
    Assistant,
}

/// The role that goes by `name` on the wire.
pub open spec fn role_named(name: Seq<char>) -> Option<Role> {
    if name == "system"@ {
        Some(Role::System)
    } else if name == "user"@ {
        Some(Role::User)
    } else if name == "assistant"@ {
        Some(Role::Assistant)
    } else {
        None
    }
}

impl Role {
    /// The name by which this role goes on the wire.
    pub open spec fn name(self) -> Seq<char> {
        match self {
            Role::System => "system"@,
            Role::User => "user"@,
            Role::Assistant => "assistant"@,
        }
    }

    /// The name by which this role goes on the wire.
    pub fn wire_name(&self) -> (r: &'static str)
        ensures
            r@ == self.name(),
    {
        match self {
            Role::System => "system",
            Role::User => "user",
            Role::Assistant => "assistant",
        }
    }

    /// The role that goes by `name` on the wire.
    pub fn from_wire_name(name: &str) -> (r: Option<Role>)
        ensures
            r == role_named(name@),
    {
        let given = String::from_str(name);
        if given == String::from_str("system") {
            Some(Role::System)
        } else if given == String::from_str("user") {
            Some(Role::User)
        } else if given == String::from_str("assistant") {
            Some(Role::Assistant)
        } else {
            None
        }
    }
}

/// Every role is the one that goes by its own name.
pub proof fn lemma_role_name_round_trip(role: Role)
    ensures
        role_named(role.name()) == Some(role),
{
    reveal_strlit("system");
    reveal_strlit("user");
    reveal_strlit("assistant");
    assert("system"@.len() == 6);
    assert("user"@.len() == 4);
    assert("assistant"@.len() == 9);
}

/// One turn of the conversation.
#[derive(Clone, Debug, PartialEq, Eq)]
pub struct ChatMessage {
    pub role: Role,
    pub content: String,
}

/// A `ChatMessage` as a mathematical value.
pub struct MessageView {
    pub role: Role,
    pub content: Seq<char>,
}

impl View for ChatMessage {
    type V = MessageView;

    open spec fn view(&self) -> MessageView {
        MessageView { role: self.role, content: self.content@ }
    }
}

/// The counts of tokens that the service reports for an exchange.
#[derive(Clone, Copy, Debug, PartialEq, Eq, Structural)]
pub struct Usage {
    pub prompt_tokens: u64,
    pub completion_tokens: u64,
    pub total_tokens: u64,
}

/// One of the answers that the service offers.
#[derive(Clone, Debug, PartialEq, Eq)]
pub struct Choice {
    pub message: ChatMessage,
}

/// A `Choice` as a mathematical value.
pub struct ChoiceView {
    pub message: MessageView,
}

impl View for Choice {
    type V = ChoiceView;

    open spec fn view(&self) -> ChoiceView {
        ChoiceView { message: self.message@ }
    }
}

/// What the service sends back.
#[derive(Clone, Debug, PartialEq, Eq)]
pub struct ChatResponse {
    pub usage: Usage,
    pub choices: Vec<Choice>,
}

/// A `ChatResponse` as a mathematical value.
pub struct ResponseView {
    pub usage: Usage,
    pub choices: Seq<ChoiceView>,
}

impl View for ChatResponse {
    type V = ResponseView;

    open spec fn view(&self) -> ResponseView {
        ResponseView { usage: self.usage, choices: self.choices@.map_values(|c: Choice| c@) }
    }
}

/// What is sent to the service: the model to use and the turns so far.
#[derive(Clone, Debug, PartialEq, Eq)]
pub struct ChatRequest {
    pub model: String,
    pub messages: Vec<ChatMessage>,
}

/// A `ChatRequest` as a mathematical value.
pub struct RequestView {
    pub model: Seq<char>,
    pub messages: Seq<MessageView>,
}

impl RequestView {
    /// Whether this is the opening of an exchange: a system turn, then a
    /// user turn, and nothing else.
    pub open spec fn opens_exchange(self) -> bool {
        &&& self.messages.len() == 2
        &&& self.messages[0].role == Role::System
        &&& self.messages[1].role == Role::User
    }
}

impl View for ChatRequest {
    type V = RequestView;

    open spec fn view(&self) -> RequestView {
        RequestView {
            model: self.model@,
            messages: self.messages@.map_values(|m: ChatMessage| m@),
        }
    }
}

/// The instruction that follows the data in the system turn.
pub const SYSTEM_PROMPT: &'static str =
    "Consider the users input on the given data. Respond directly to the question, do not provide any other information. Respond in only on sentence if possible. Hint: the data might often be the output of running a linux command with the --help argument. In this case, do not mention the name of the program";

/// The system turn's text: the data between its two markers, then the prompt.
pub open spec fn system_content(input: Seq<char>, prompt: Seq<char>) -> Seq<char> {
    "DATA: "@ + input + "\nEND DATA\n\n"@ + prompt
}

/// The system turn begins with the marker `DATA:`, holds the input unaltered
/// one character on, has the marker `END DATA` on the line after the input,
/// and ends with the prompt after one empty line.
pub proof fn lemma_system_content_frames_input(input: Seq<char>, prompt: Seq<char>)
    ensures
        system_content(input, prompt).len() == input.len() + prompt.len() + 17,
        occurs_at(system_content(input, prompt), "DATA:"@, 0),
        occurs_at(system_content(input, prompt), input, 6),
        occurs_at(system_content(input, prompt), "END DATA"@, input.len() as int + 7),
        occurs_at(system_content(input, prompt), prompt, input.len() as int + 17),
{
    reveal_strlit("DATA: ");
    reveal_strlit("\nEND DATA\n\n");
    reveal_strlit("DATA:");
    reveal_strlit("END DATA");
    let content = system_content(input, prompt);
    let n: int = input.len() as int;
    assert(content.subrange(0, 5) =~= "DATA:"@);
    assert(content.subrange(6, 6 + n) =~= input);
    assert(content.subrange(n + 7, n + 15) =~= "END DATA"@);
    assert(content.subrange(n + 17, n + 17 + prompt.len()) =~= prompt);
}

/// The request for `input` and `instruction`: a system turn that wraps the
/// input and ends with `prompt`, then a user turn with the instruction.
pub open spec fn request_for(
    input: Seq<char>,
    instruction: Seq<char>,
    model: Seq<char>,
    prompt: Seq<char>,
) -> RequestView {
    RequestView {
        model,
        messages: seq![
            MessageView { role: Role::System, content: system_content(input, prompt) },
            MessageView { role: Role::User, content: instruction },
        ],
    }
}

/// Every request that is built opens an exchange.
pub proof fn lemma_request_opens_exchange(
    input: Seq<char>,
    instruction: Seq<char>,
    model: Seq<char>,
    prompt: Seq<char>,
)
    ensures
        request_for(input, instruction, model, prompt).opens_exchange(),
{
}

/// Builds the request with a system prompt of the caller's.
pub fn build_request_with_prompt(input: &str, instruction: &str, model: &str, prompt: &str) -> (r:
    ChatRequest)
    ensures
        r@ == request_for(input@, instruction@, model@, prompt@),
{
    let mut content = String::from_str("DATA: ");
    content.append(input);
    content.append("\nEND DATA\n\n");
    content.append(prompt);
    let system = ChatMessage { role: Role::System, content };
    let user = ChatMessage { role: Role::User, content: String::from_str(instruction) };
    let mut messages: Vec<ChatMessage> = Vec::new();
    messages.push(system);
    messages.push(user);
    let r = ChatRequest { model: String::from_str(model), messages };
    assert(r@.messages =~= request_for(input@, instruction@, model@, prompt@).messages);
    r
}

/// Builds the request with the fixed system prompt.
pub fn build_request(input: &str, instruction: &str, model: &str) -> (r: ChatRequest)
    ensures
        r@ == request_for(input@, instruction@, model@, SYSTEM_PROMPT@),
{
    build_request_with_prompt(input, instruction, model, SYSTEM_PROMPT)
}

} // verus!
