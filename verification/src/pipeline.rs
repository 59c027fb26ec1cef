//! One run, from the input to the request and from the response to the answer.

use crate::chat::{build_request_with_prompt, request_for, ChatRequest, SYSTEM_PROMPT};
use crate::decode::{answer_in, document_view, extract_from_document};
use crate::error::{check_status, is_success, PipelineError};
use crate::estimate::{token_estimate, word_count};
use crate::json::{json_document, parse_json, Json, JsonValue};
use crate::model::{select_model, selection};
use crate::text::{decimal, decimal_string, trim, trimmed};
use vstd::prelude::*;

verus! {

/// Where requests go unless the configuration says otherwise.
pub const ENDPOINT_URL: &'static str = "https://openrouter.ai/api/v1/chat/completions";

/// The model for inputs up to the threshold.
pub const SMALL_MODEL: &'static str = "google/gemini-flash-1.5-8b";

/// The model for inputs above the threshold. It is the small model until a
/// configuration names another.
pub const LARGE_MODEL: &'static str = "google/gemini-flash-1.5-8b";

/// The largest estimate that still goes to the small model.
pub const TOKEN_THRESHOLD: usize = 8000;

/// What a run is configured with.
#[derive(Clone, Debug, PartialEq, Eq)]
pub struct Config {
    pub system_prompt: String,
    pub endpoint_url: String,
    pub small_model: String,
    pub large_model: String,
    pub token_threshold: usize,
    pub api_key: String,
}

impl Config {
    /// The configuration with the given key and every other value at its
    /// default.
    pub fn new(api_key: &str) -> (r: Config)
        ensures
            r.system_prompt@ == SYSTEM_PROMPT@,
            r.endpoint_url@ == ENDPOINT_URL@,
            r.small_model@ == SMALL_MODEL@,
            r.large_model@ == LARGE_MODEL@,
            r.token_threshold == TOKEN_THRESHOLD,
            r.api_key@ == api_key@,
    {
        Config {
            system_prompt: String::from_str(SYSTEM_PROMPT),
            endpoint_url: String::from_str(ENDPOINT_URL),
            small_model: String::from_str(SMALL_MODEL),
            large_model: String::from_str(LARGE_MODEL),
            token_threshold: TOKEN_THRESHOLD,
            api_key: String::from_str(api_key),
        }
    }
}

/// The words, each followed by one space.
pub open spec fn spaced(words: Seq<Seq<char>>) -> Seq<char>
    decreases words.len(),
{
    if words.len() == 0 {
        Seq::empty()
    } else {
        spaced(words.drop_last()) + words.last() + seq![' ']
    }
}

/// The instruction that the arguments spell: the arguments with one space
/// between them, without white space at either end.
pub open spec fn instruction_of(args: Seq<Seq<char>>) -> Seq<char> {
    trimmed(spaced(args))
}

/// The instruction that the arguments spell.
pub fn instruction_from_args(args: &Vec<String>) -> (r: String)
    ensures
        r@ == instruction_of(args@.map_values(|a: String| a@)),
{
    let ghost words = args@.map_values(|a: String| a@);
    let mut joined = String::new();
    let mut i: usize = 0;
    while i < args.len()
        invariant
            i <= args.len(),
            words == args@.map_values(|a: String| a@),
            joined@ == spaced(words.take(i as int)),
        decreases args.len() - i,
    {
        proof {
            reveal_strlit(" ");
            assert(words.take(i + 1).drop_last() =~= words.take(i as int));
            assert(" "@ =~= seq![' ']);
        }
        joined.append(args[i].as_str());
        joined.append(" ");
        i = i + 1;
    }
    proof {
        assert(words.take(i as int) =~= words);
    }
    String::from_str(trim(joined.as_str()))
}

/// What is decided before the request goes out.
#[derive(Clone, Debug, PartialEq, Eq)]
pub struct Prepared {
    /// The estimated number of tokens in the input.
    pub estimate: usize,
    /// Whether the estimate is above the threshold.
    pub large_input: bool,
    /// The request to send.
    pub request: ChatRequest,
}

/// Estimates the input, selects the model and builds the request.
pub fn prepare(config: &Config, input: &str, instruction: &str) -> (r: Prepared)
    requires
        input@.len() < usize::MAX,
    ensures
        r.estimate == 2 * word_count(input@),
        r.large_input == (r.estimate > config.token_threshold),
        r.request@ == request_for(
            input@,
            instruction@,
            selection(
                r.estimate as nat,
                config.token_threshold as nat,
                config.small_model@,
                config.large_model@,
            ),
            config.system_prompt@,
        ),
{
    let estimate: usize = token_estimate(input);
    let model = select_model(
        estimate,
        config.token_threshold,
        config.small_model.as_str(),
        config.large_model.as_str(),
    );
    let request = build_request_with_prompt(
        input,
        instruction,
        model,
        config.system_prompt.as_str(),
    );
    Prepared { estimate, large_input: estimate > config.token_threshold, request }
}

/// The line that reports the estimate.
pub open spec fn estimate_notice_text(estimate: nat) -> Seq<char> {
    "Recieved ~"@ + decimal(estimate) + " tokens as input."@
}

/// The line that reports the change of model.
pub open spec fn switch_notice_text(estimate: nat, threshold: nat) -> Seq<char> {
    "Using paied model ("@ + decimal(estimate) + " > "@ + decimal(threshold) + ")"@
}

/// The lines to show before the request goes out: the estimate, and the
/// change of model where the estimate is above the threshold.
pub open spec fn notice_texts(estimate: nat, threshold: nat) -> Seq<Seq<char>> {
    if estimate > threshold {
        seq![estimate_notice_text(estimate), switch_notice_text(estimate, threshold)]
    } else {
        seq![estimate_notice_text(estimate)]
    }
}

/// The line that reports the estimate.
pub fn estimate_notice(estimate: usize) -> (r: String)
    ensures
        r@ == estimate_notice_text(estimate as nat),
{
    let mut r = String::from_str("Recieved ~");
    let count = decimal_string(estimate as u64);
    r.append(count.as_str());
    r.append(" tokens as input.");
    r
}

/// The line that reports the change of model.
pub fn switch_notice(estimate: usize, threshold: usize) -> (r: String)
    ensures
        r@ == switch_notice_text(estimate as nat, threshold as nat),
{
    let mut r = String::from_str("Using paied model (");
    let count = decimal_string(estimate as u64);
    r.append(count.as_str());
    r.append(" > ");
    let limit = decimal_string(threshold as u64);
    r.append(limit.as_str());
    r.append(")");
    r
}

/// The lines to show before the request goes out.
pub fn notices(estimate: usize, threshold: usize) -> (r: Vec<String>)
    ensures
        r@.map_values(|line: String| line@) == notice_texts(estimate as nat, threshold as nat),
{
    let mut r: Vec<String> = Vec::new();
    r.push(estimate_notice(estimate));
    if estimate > threshold {
        r.push(switch_notice(estimate, threshold));
    }
    assert(r@.map_values(|line: String| line@) =~= notice_texts(estimate as nat, threshold as nat));
    r
}

/// How a run ends on a response with this status and this document, where
/// `None` stands for a body that is no JSON: with the answer, or with the
/// one error that is owed.
pub open spec fn outcome(status: u16, document: Option<JsonValue>) -> Result<
    Seq<char>,
    PipelineError,
> {
    if !is_success(status) {
        Err(PipelineError::Api(status))
    } else {
        match answer_in(document) {
            Ok(answer) => Ok(answer),
            Err(e) => Err(PipelineError::Decode(e)),
        }
    }
}

/// Ends a run on a response whose body was parsed already.
pub fn conclude_with_document(status: u16, document: Option<&Json>) -> (r: Result<
    String,
    PipelineError,
>)
    ensures
        match r {
            Ok(answer) => outcome(status, document_view(document)) == Ok::<
                Seq<char>,
                PipelineError,
            >(answer@),
            Err(e) => outcome(status, document_view(document)) == Err::<
                Seq<char>,
                PipelineError,
            >(e),
        },
{
    match check_status(status) {
        Err(e) => Err(e),
        Ok(_) => match extract_from_document(document) {
            Ok(answer) => Ok(answer),
            Err(e) => Err(PipelineError::Decode(e)),
        },
    }
}

/// Ends a run on a response: refuses a status that is none of success, and
/// reads the answer from the body of every other.
pub fn conclude(status: u16, body: &[u8]) -> (r: Result<String, PipelineError>)
    ensures
        match r {
            Ok(answer) => outcome(status, json_document(body@)) == Ok::<Seq<char>, PipelineError>(
                answer@,
            ),
            Err(e) => outcome(status, json_document(body@)) == Err::<Seq<char>, PipelineError>(e),
        },
{
    match check_status(status) {
        Err(e) => Err(e),
        Ok(_) => {
            let document = parse_json(body);
            conclude_with_document(status, document.as_ref())
        },
    }
}

} // verus!
