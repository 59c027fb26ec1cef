//! What can go wrong, and what is said about it.

use crate::text::{decimal, decimal_string, occurs_at};
use vstd::prelude::*;

verus! {

/// Why a response body gave no answer.
#[derive(Clone, Copy, Debug, PartialEq, Eq, Structural)]
pub enum DecodeError {
    /// The body is no JSON document.
    NotJson,
    /// The document is JSON, but no chat response.
    UnexpectedShape,
    /// The response is well formed and offers no choice.
    NoChoices,
}

/// Why a run ended without an answer.
#[derive(Clone, Debug, PartialEq, Eq)]
pub enum PipelineError {
    /// The input was no valid UTF-8.
    InvalidInput,
    /// The exchange with the service did not complete; the cause, in words.
    Transport(String),
    /// The service answered with this status, which is none of success.
    Api(u16),
    /// The service answered with a body that holds no answer.
    Decode(DecodeError),
}

/// The reason phrase that `http::StatusCode::canonical_reason` has for
/// `status`; `None` where it has none, and where `status` is no status code.
pub uninterp spec fn reason_phrase(status: u16) -> Option<Seq<char>>;

/// Calls `http::StatusCode::from_u16` and then
/// `http::StatusCode::canonical_reason`. The contract gives the outcome its
/// name: the phrase depends on `status` alone, and `None` stands both for a
/// number that `from_u16` refuses and for a code without a phrase.
#[verifier::external_body]
fn canonical_reason(status: u16) -> (r: Option<&'static str>)
    ensures
        match r {
            Some(phrase) => reason_phrase(status) == Some(phrase@),
            None => reason_phrase(status) is None,
        },
{
    match http::StatusCode::from_u16(status) {
        Ok(code) => code.canonical_reason(),
        Err(_) => None,
    }
}

/// Whether `status` is one of the success codes, 200 to 299.
pub open spec fn is_success(status: u16) -> bool {
    200 <= status < 300
}

/// What is said of a response with a status that is none of success.
pub open spec fn api_error_text(status: u16, reason: Option<Seq<char>>) -> Seq<char> {
    "Request failed ("@ + decimal(status as nat) + " "@ + match reason {
        Some(phrase) => phrase,
        None => "<unknown status code>"@,
    } + "): Is your GPTPIPE_KEY valid and does it have enough credits?"@
}

/// What is said of a refused status holds the status in decimal, right after
/// the opening bracket.
pub proof fn lemma_api_error_names_status(status: u16, reason: Option<Seq<char>>)
    ensures
        occurs_at(api_error_text(status, reason), decimal(status as nat), 16),
{
    reveal_strlit("Request failed (");
    let text = api_error_text(status, reason);
    let code = decimal(status as nat);
    assert(text.subrange(16, 16 + code.len() as int) =~= code);
}

impl DecodeError {
    /// What is said of this error.
    pub open spec fn text(self) -> Seq<char> {
        match self {
            DecodeError::NotJson => "Recieved unexpected response content"@,
            DecodeError::UnexpectedShape => "Recieved unexpected response content"@,
            DecodeError::NoChoices => "Recieved a response without choices"@,
        }
    }

    /// What is said of this error.
    pub fn message(&self) -> (r: String)
        ensures
            r@ == self.text(),
    {
        match self {
            DecodeError::NotJson => String::from_str("Recieved unexpected response content"),
            DecodeError::UnexpectedShape => String::from_str(
                "Recieved unexpected response content",
            ),
            DecodeError::NoChoices => String::from_str("Recieved a response without choices"),
        }
    }
}

impl PipelineError {
    /// What is said of this error.
    pub open spec fn text(self) -> Seq<char> {
        match self {
            PipelineError::InvalidInput => "stdin contained invalid UTF-8"@,
            PipelineError::Transport(cause) => "Request could not be completed: "@ + cause@,
            PipelineError::Api(status) => api_error_text(status, reason_phrase(status)),
            PipelineError::Decode(e) => e.text(),
        }
    }

    /// What is said of this error.
    pub fn message(&self) -> (r: String)
        ensures
            r@ == self.text(),
    {
        match self {
            PipelineError::InvalidInput => String::from_str("stdin contained invalid UTF-8"),
            PipelineError::Transport(cause) => {
                let mut r = String::from_str("Request could not be completed: ");
                r.append(cause.as_str());
                r
            },
            PipelineError::Api(status) => api_error_message(*status, canonical_reason(*status)),
            PipelineError::Decode(e) => e.message(),
        }
    }
}

/// What is said of a response with status `status`, whose reason phrase is
/// `reason`.
pub fn api_error_message(status: u16, reason: Option<&str>) -> (r: String)
    ensures
        r@ == api_error_text(
            status,
            match reason {
                Some(phrase) => Some(phrase@),
                None => None,
            },
        ),
{
    let mut r = String::from_str("Request failed (");
    let code = decimal_string(status as u64);
    r.append(code.as_str());
    r.append(" ");
    match reason {
        Some(phrase) => r.append(phrase),
        None => r.append("<unknown status code>"),
    }
    r.append("): Is your GPTPIPE_KEY valid and does it have enough credits?");
    r
}

/// Lets a response with a success status pass and refuses every other.
pub fn check_status(status: u16) -> (r: Result<(), PipelineError>)
    ensures
        r == (if is_success(status) {
            Ok(())
        } else {
            Err(PipelineError::Api(status))
        }),
{
    if 200 <= status && status < 300 {
        Ok(())
    } else {
        Err(PipelineError::Api(status))
    }
}

} // verus!
