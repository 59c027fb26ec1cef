use gptpipe::chat::{ChatMessage, ChatResponse, Choice, Role, Usage};
use gptpipe::decode::{
    decode_choice, decode_choices, decode_message, decode_response, decode_usage, extract,
    extract_answer, extract_from_document,
};
use gptpipe::error::DecodeError;
use gptpipe::json::{parse_json, Json};

const PARIS: &[u8] = br#"{
    "id": "gen-1",
    "usage": {"prompt_tokens": 12, "completion_tokens": 3, "total_tokens": 15},
    "choices": [{"message": {"role": "assistant", "content": "  Paris.  "}}]
}"#;

fn text(s: &str) -> Json {
    Json::Text(String::from(s))
}

fn object(members: Vec<(&str, Json)>) -> Json {
    Json::Object(
        members
            .into_iter()
            .map(|(k, v)| (String::from(k), v))
            .collect(),
    )
}

fn usage_json() -> Json {
    object(vec![
        ("prompt_tokens", Json::Number(Some(1))),
        ("completion_tokens", Json::Number(Some(2))),
        ("total_tokens", Json::Number(Some(3))),
    ])
}

fn choice_json(role: &str, content: &str) -> Json {
    object(vec![(
        "message",
        object(vec![("role", text(role)), ("content", text(content))]),
    )])
}

#[test]
fn answer_is_the_trimmed_content_of_the_first_choice() {
    assert_eq!(extract(PARIS), Ok(String::from("Paris.")));
}

#[test]
fn only_the_first_choice_is_read() {
    let body = br#"{
        "usage": {"prompt_tokens": 1, "completion_tokens": 2, "total_tokens": 3},
        "choices": [
            {"message": {"role": "assistant", "content": "first\n"}},
            {"message": {"role": "assistant", "content": "second"}}
        ]
    }"#;
    assert_eq!(extract(body), Ok(String::from("first")));
}

#[test]
fn empty_choice_list_is_an_error() {
    assert!(extract(br#"{"choices": []}"#).is_err());
    let body = br#"{
        "usage": {"prompt_tokens": 1, "completion_tokens": 0, "total_tokens": 1},
        "choices": []
    }"#;
    assert_eq!(extract(body), Err(DecodeError::NoChoices));
}

#[test]
fn body_without_usage_has_not_the_shape() {
    assert_eq!(
        extract(br#"{"choices": []}"#),
        Err(DecodeError::UnexpectedShape)
    );
    assert_eq!(
        extract(br#"{"choices": [{"message": {"role": "assistant", "content": "x"}}]}"#),
        Err(DecodeError::UnexpectedShape)
    );
}

#[test]
fn body_that_is_no_json_is_refused() {
    assert_eq!(extract(b""), Err(DecodeError::NotJson));
    assert_eq!(extract(b"Bad Gateway"), Err(DecodeError::NotJson));
    assert_eq!(extract(&PARIS[..PARIS.len() - 1]), Err(DecodeError::NotJson));
}

#[test]
fn json_of_another_shape_is_refused() {
    let bodies: [&[u8]; 12] = [
        b"null",
        b"[]",
        b"\"text\"",
        b"{}",
        br#"{"usage": {"prompt_tokens": 1, "completion_tokens": 2, "total_tokens": 3}}"#,
        br#"{"usage": {"prompt_tokens": 1, "completion_tokens": 2}, "choices": []}"#,
        br#"{"usage": {"prompt_tokens": -1, "completion_tokens": 2, "total_tokens": 3}, "choices": []}"#,
        br#"{"usage": {"prompt_tokens": 1.5, "completion_tokens": 2, "total_tokens": 3}, "choices": []}"#,
        br#"{"usage": {"prompt_tokens": "1", "completion_tokens": 2, "total_tokens": 3}, "choices": []}"#,
        br#"{"usage": null, "choices": []}"#,
        br#"{"usage": {"prompt_tokens": 1, "completion_tokens": 2, "total_tokens": 3}, "choices": {}}"#,
        br#"{"error": {"message": "No auth credentials found", "code": 401}}"#,
    ];
    for body in bodies {
        assert_eq!(extract(body), Err(DecodeError::UnexpectedShape));
    }
}

#[test]
fn every_choice_has_to_be_well_formed() {
    let bodies: [&[u8]; 7] = [
        br#"{"usage": {"prompt_tokens": 1, "completion_tokens": 2, "total_tokens": 3},
            "choices": [{"message": {"role": "assistant", "content": "ok"}}, {}]}"#,
        br#"{"usage": {"prompt_tokens": 1, "completion_tokens": 2, "total_tokens": 3},
            "choices": [{"message": {"role": "assistant"}}]}"#,
        br#"{"usage": {"prompt_tokens": 1, "completion_tokens": 2, "total_tokens": 3},
            "choices": [{"message": {"content": "x"}}]}"#,
        br#"{"usage": {"prompt_tokens": 1, "completion_tokens": 2, "total_tokens": 3},
            "choices": [{"message": {"role": "assistant", "content": null}}]}"#,
        br#"{"usage": {"prompt_tokens": 1, "completion_tokens": 2, "total_tokens": 3},
            "choices": [{"message": {"role": "robot", "content": "x"}}]}"#,
        br#"{"usage": {"prompt_tokens": 1, "completion_tokens": 2, "total_tokens": 3},
            "choices": [{"message": {"role": "Assistant", "content": "x"}}]}"#,
        br#"{"usage": {"prompt_tokens": 1, "completion_tokens": 2, "total_tokens": 3},
            "choices": ["text"]}"#,
    ];
    for body in bodies {
        assert_eq!(extract(body), Err(DecodeError::UnexpectedShape));
    }
}

#[test]
fn members_that_are_not_asked_for_are_passed_over() {
    let body = br#"{
        "model": "m", "created": 1,
        "usage": {"prompt_tokens": 1, "completion_tokens": 2, "total_tokens": 3, "cost": 0.1},
        "choices": [{"index": 0, "finish_reason": "stop",
                     "message": {"role": "assistant", "content": "yes", "refusal": null}}]
    }"#;
    assert_eq!(extract(body), Ok(String::from("yes")));
}

#[test]
fn answer_of_white_space_is_empty() {
    let body = br#"{
        "usage": {"prompt_tokens": 1, "completion_tokens": 2, "total_tokens": 3},
        "choices": [{"message": {"role": "assistant", "content": " \n\t "}}]
    }"#;
    assert_eq!(extract(body), Ok(String::new()));
}

#[test]
fn response_is_decoded_in_full() {
    let json = parse_json(PARIS).unwrap();
    let response = decode_response(&json).unwrap();
    assert_eq!(
        response,
        ChatResponse {
            usage: Usage {
                prompt_tokens: 12,
                completion_tokens: 3,
                total_tokens: 15
            },
            choices: vec![Choice {
                message: ChatMessage {
                    role: Role::Assistant,
                    content: String::from("  Paris.  "),
                },
            }],
        }
    );
}

#[test]
fn response_is_decoded_from_a_tree() {
    let json = object(vec![
        ("usage", usage_json()),
        (
            "choices",
            Json::Array(vec![
                choice_json("assistant", "one"),
                choice_json("user", "two"),
                choice_json("system", "three"),
            ]),
        ),
    ]);
    let response = decode_response(&json).unwrap();
    assert_eq!(
        response.usage,
        Usage {
            prompt_tokens: 1,
            completion_tokens: 2,
            total_tokens: 3
        }
    );
    assert_eq!(response.choices.len(), 3);
    assert_eq!(response.choices[0].message.role, Role::Assistant);
    assert_eq!(response.choices[1].message.role, Role::User);
    assert_eq!(response.choices[2].message.role, Role::System);
    assert_eq!(response.choices[2].message.content, "three");
}

#[test]
fn usage_needs_three_counts() {
    assert_eq!(
        decode_usage(&usage_json()),
        Some(Usage {
            prompt_tokens: 1,
            completion_tokens: 2,
            total_tokens: 3
        })
    );
    assert_eq!(
        decode_usage(&object(vec![
            ("prompt_tokens", Json::Number(Some(1))),
            ("completion_tokens", Json::Number(None)),
            ("total_tokens", Json::Number(Some(3))),
        ])),
        None
    );
    assert_eq!(decode_usage(&Json::Array(vec![])), None);
    assert_eq!(decode_usage(&Json::Null), None);
}

#[test]
fn message_needs_a_role_and_a_content() {
    let json = object(vec![("role", text("user")), ("content", text(" hi "))]);
    assert_eq!(
        decode_message(&json),
        Some(ChatMessage {
            role: Role::User,
            content: String::from(" hi "),
        })
    );
    assert_eq!(decode_message(&object(vec![("role", text("user"))])), None);
    assert_eq!(
        decode_message(&object(vec![("role", Json::Null), ("content", text("x"))])),
        None
    );
    assert_eq!(decode_message(&text("user")), None);
}

#[test]
fn choice_needs_a_message() {
    assert_eq!(
        decode_choice(&choice_json("assistant", "x")),
        Some(Choice {
            message: ChatMessage {
                role: Role::Assistant,
                content: String::from("x"),
            },
        })
    );
    assert_eq!(decode_choice(&object(vec![])), None);
    assert_eq!(decode_choice(&object(vec![("message", Json::Null)])), None);
}

#[test]
fn choices_are_read_in_order() {
    let items = vec![choice_json("assistant", "a"), choice_json("assistant", "b")];
    let choices = decode_choices(&items).unwrap();
    assert_eq!(choices.len(), 2);
    assert_eq!(choices[0].message.content, "a");
    assert_eq!(choices[1].message.content, "b");
    assert_eq!(decode_choices(&vec![]), Some(vec![]));
    assert_eq!(
        decode_choices(&vec![choice_json("assistant", "a"), Json::Null]),
        None
    );
}

#[test]
fn answer_of_a_response_value() {
    let response = ChatResponse {
        usage: Usage {
            prompt_tokens: 0,
            completion_tokens: 0,
            total_tokens: 0,
        },
        choices: vec![Choice {
            message: ChatMessage {
                role: Role::Assistant,
                content: String::from("\u{00A0} 42 \n"),
            },
        }],
    };
    assert_eq!(extract_answer(&response), Ok(String::from("42")));
    let empty = ChatResponse {
        usage: response.usage,
        choices: vec![],
    };
    assert_eq!(extract_answer(&empty), Err(DecodeError::NoChoices));
}

#[test]
fn answer_of_a_document_value() {
    assert_eq!(extract_from_document(None), Err(DecodeError::NotJson));
    assert_eq!(
        extract_from_document(Some(&Json::Null)),
        Err(DecodeError::UnexpectedShape)
    );
    let json = object(vec![
        ("usage", usage_json()),
        ("choices", Json::Array(vec![choice_json("assistant", " Paris. ")])),
    ]);
    assert_eq!(
        extract_from_document(Some(&json)),
        Ok(String::from("Paris."))
    );
    let none = object(vec![("usage", usage_json()), ("choices", Json::Array(vec![]))]);
    assert_eq!(
        extract_from_document(Some(&none)),
        Err(DecodeError::NoChoices)
    );
}
