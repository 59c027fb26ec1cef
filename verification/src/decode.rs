//! From a response body to the answer in it.

use crate::chat::{
    role_named, ChatMessage, ChatResponse, Choice, ChoiceView, MessageView, ResponseView, Role,
    Usage,
};
use crate::error::DecodeError;
use crate::json::{json_document, parse_json, views_of, Json, JsonValue};
use crate::text::{trim, trimmed};
use vstd::prelude::*;

verus! {

/// The usage that `json` holds: an object whose members `prompt_tokens`,
/// `completion_tokens` and `total_tokens` are non-negative integers below 2^64.
pub open spec fn usage_of(json: JsonValue) -> Option<Usage> {
    match (
        json.member("prompt_tokens"@),
        json.member("completion_tokens"@),
        json.member("total_tokens"@),
    ) {
        (Some(prompt), Some(completion), Some(total)) => match (
            prompt.number(),
            completion.number(),
            total.number(),
        ) {
            (Some(prompt_tokens), Some(completion_tokens), Some(total_tokens)) => Some(
                Usage { prompt_tokens, completion_tokens, total_tokens },
            ),
            _ => None,
        },
        _ => None,
    }
}

/// The message that `json` holds: an object whose member `role` is the name
/// of a role and whose member `content` is a string.
pub open spec fn message_of(json: JsonValue) -> Option<MessageView> {
    match (json.member("role"@), json.member("content"@)) {
        (Some(JsonValue::Text(name)), Some(JsonValue::Text(content))) => match role_named(name) {
            Some(role) => Some(MessageView { role, content }),
            None => None,
        },
        _ => None,
    }
}

/// The choice that `json` holds: an object whose member `message` is a
/// message.
pub open spec fn choice_of(json: JsonValue) -> Option<ChoiceView> {
    match json.member("message"@) {
        Some(inner) => match message_of(inner) {
            Some(message) => Some(ChoiceView { message }),
            None => None,
        },
        None => None,
    }
}

/// The choices that `items` hold, if every one of them is a choice.
pub open spec fn choices_of(items: Seq<JsonValue>) -> Option<Seq<ChoiceView>> {
    if forall|i: int| 0 <= i < items.len() ==> choice_of(#[trigger] items[i]) is Some {
        Some(Seq::new(items.len(), |i: int| choice_of(items[i]).unwrap()))
    } else {
        None
    }
}

/// The response that `json` holds: an object whose member `usage` is a usage
/// and whose member `choices` is an array of choices. Other members are
/// passed over.
pub open spec fn response_of(json: JsonValue) -> Option<ResponseView> {
    match (json.member("usage"@), json.member("choices"@)) {
        (Some(usage_json), Some(JsonValue::Array(items))) => match (
            usage_of(usage_json),
            choices_of(items),
        ) {
            (Some(usage), Some(choices)) => Some(ResponseView { usage, choices }),
            _ => None,
        },
        _ => None,
    }
}

/// The answer in a response: the content of its first choice, trimmed.
pub open spec fn answer_of(response: ResponseView) -> Result<Seq<char>, DecodeError> {
    if response.choices.len() == 0 {
        Err(DecodeError::NoChoices)
    } else {
        Ok(trimmed(response.choices[0].message.content))
    }
}

/// The answer in a document, where `None` stands for a body that is no JSON.
pub open spec fn answer_in(document: Option<JsonValue>) -> Result<Seq<char>, DecodeError> {
    match document {
        None => Err(DecodeError::NotJson),
        Some(json) => match response_of(json) {
            None => Err(DecodeError::UnexpectedShape),
            Some(response) => answer_of(response),
        },
    }
}

/// Reads a usage from `json`.
pub fn decode_usage(json: &Json) -> (r: Option<Usage>)
    ensures
        r == usage_of(json@),
{
    let prompt = match json.member("prompt_tokens") {
        Some(j) => j.number(),
        None => None,
    };
    let completion = match json.member("completion_tokens") {
        Some(j) => j.number(),
        None => None,
    };
    let total = match json.member("total_tokens") {
        Some(j) => j.number(),
        None => None,
    };
    match (prompt, completion, total) {
        (Some(prompt_tokens), Some(completion_tokens), Some(total_tokens)) => Some(
            Usage { prompt_tokens, completion_tokens, total_tokens },
        ),
        _ => None,
    }
}

/// Reads a message from `json`.
pub fn decode_message(json: &Json) -> (r: Option<ChatMessage>)
    ensures
        match r {
            Some(message) => message_of(json@) == Some(message@),
            None => message_of(json@) is None,
        },
{
    let name = match json.member("role") {
        Some(j) => j.text(),
        None => None,
    };
    let content = match json.member("content") {
        Some(j) => j.text(),
        None => None,
    };
    match (name, content) {
        (Some(name), Some(content)) => match Role::from_wire_name(name.as_str()) {
            Some(role) => Some(ChatMessage { role, content: content.clone() }),
            None => None,
        },
        _ => None,
    }
}

/// Reads a choice from `json`.
pub fn decode_choice(json: &Json) -> (r: Option<Choice>)
    ensures
        match r {
            Some(choice) => choice_of(json@) == Some(choice@),
            None => choice_of(json@) is None,
        },
{
    match json.member("message") {
        Some(inner) => match decode_message(inner) {
            Some(message) => Some(Choice { message }),
            None => None,
        },
        None => None,
    }
}

/// Reads the choices from `items`.
pub fn decode_choices(items: &Vec<Json>) -> (r: Option<Vec<Choice>>)
    ensures
        match r {
            Some(choices) => choices_of(views_of(items@)) == Some(
                choices@.map_values(|c: Choice| c@),
            ),
            None => choices_of(views_of(items@)) is None,
        },
{
    let ghost all = views_of(items@);
    let mut choices: Vec<Choice> = Vec::new();
    let mut i: usize = 0;
    while i < items.len()
        invariant
            i <= items.len(),
            all == views_of(items@),
            choices@.len() == i,
            forall|k: int| 0 <= k < i ==> choice_of(#[trigger] all[k]) == Some(choices@[k]@),
        decreases items.len() - i,
    {
        match decode_choice(&items[i]) {
            Some(choice) => {
                choices.push(choice);
            },
            None => {
                assert(choice_of(all[i as int]) is None);
                return None;
            },
        }
        i = i + 1;
    }
    proof {
        assert(choices_of(all)->0 =~= choices@.map_values(|c: Choice| c@));
    }
    Some(choices)
}

/// Reads a response from `json`.
pub fn decode_response(json: &Json) -> (r: Option<ChatResponse>)
    ensures
        match r {
            Some(response) => response_of(json@) == Some(response@),
            None => response_of(json@) is None,
        },
{
    let usage = match json.member("usage") {
        Some(j) => decode_usage(j),
        None => None,
    };
    let choices = match json.member("choices") {
        Some(j) => match j.items() {
            Some(items) => decode_choices(items),
            None => None,
        },
        None => None,
    };
    match (usage, choices) {
        (Some(usage), Some(choices)) => Some(ChatResponse { usage, choices }),
        _ => None,
    }
}

/// The answer in `response`: the content of its first choice, trimmed.
pub fn extract_answer(response: &ChatResponse) -> (r: Result<String, DecodeError>)
    ensures
        match r {
            Ok(answer) => answer_of(response@) == Ok::<Seq<char>, DecodeError>(answer@),
            Err(e) => answer_of(response@) == Err::<Seq<char>, DecodeError>(e),
        },
{
    if response.choices.len() == 0 {
        Err(DecodeError::NoChoices)
    } else {
        Ok(String::from_str(trim(response.choices[0].message.content.as_str())))
    }
}

/// The answer in a document that was parsed, or in what was no document.
pub fn extract_from_document(document: Option<&Json>) -> (r: Result<String, DecodeError>)
    ensures
        match r {
            Ok(answer) => answer_in(document_view(document)) == Ok::<Seq<char>, DecodeError>(
                answer@,
            ),
            Err(e) => answer_in(document_view(document)) == Err::<Seq<char>, DecodeError>(e),
        },
{
    match document {
        None => Err(DecodeError::NotJson),
        Some(json) => match decode_response(json) {
            None => Err(DecodeError::UnexpectedShape),
            Some(response) => extract_answer(&response),
        },
    }
}

/// The tree of a document, if there is one.
pub open spec fn document_view(document: Option<&Json>) -> Option<JsonValue> {
    match document {
        Some(json) => Some(json@),
        None => None,
    }
}

/// The answer in a response body.
pub fn extract(body: &[u8]) -> (r: Result<String, DecodeError>)
    ensures
        match r {
            Ok(answer) => answer_in(json_document(body@)) == Ok::<Seq<char>, DecodeError>(
                answer@,
            ),
            Err(e) => answer_in(json_document(body@)) == Err::<Seq<char>, DecodeError>(e),
        },
{
    let document = parse_json(body);
    extract_from_document(document.as_ref())
}

} // verus!
