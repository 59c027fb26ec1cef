//! Request shaping for a command-line filter that puts a question about a block
//! of text to a remote chat-completion service.
//!
//! A run has two halves. Before the exchange, [`pipeline::prepare`] estimates
//! the size of the input, selects the model and builds the request. After it,
//! [`pipeline::conclude`] refuses a response whose status is none of success
//! and reads the answer from the body of every other. Reading the input and
//! talking to the service are left to the caller.

pub mod chat;
pub mod decode;
pub mod error;
pub mod estimate;
pub mod json;
pub mod model;
pub mod pipeline;
pub mod text;

pub use chat::{build_request, ChatMessage, ChatRequest, ChatResponse, Choice, Role, Usage};
pub use decode::extract;
pub use error::{DecodeError, PipelineError};
pub use estimate::token_estimate;
pub use model::select_model;
pub use pipeline::{conclude, prepare, Config, Prepared};
