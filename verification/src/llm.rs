//! Assistant reply outcomes and the messages shown for them.
//!
//! The request itself runs in the app; this module decides what a reply or
//! a failure turns into.
use vstd::prelude::*;

use crate::text::{owned, push_str, trim, trim_str};

verus! {

/// Errors surfaced when generating an assistant response.
#[derive(Debug)]
pub enum LlmError {
    /// The required `OPENAI_API_KEY` variable is not present.
    MissingApiKey,
    /// The provider client or request returned an error message.
    Request(String),
    /// The provider returned only whitespace content.
    EmptyResponse,
}

/// The message of an error.
pub open spec fn spec_error_message(e: LlmError) -> Seq<char> {
    match e {
        LlmError::MissingApiKey => "missing OPENAI_API_KEY"@,
        LlmError::Request(m) => "llm request failed: "@ + m@,
        LlmError::EmptyResponse => "empty llm response"@,
    }
}

/// The transcript text shown for a failed request.
pub open spec fn spec_user_facing_error(e: LlmError) -> Seq<char> {
    "llm request failed: "@ + spec_error_message(e) + ". set OPENAI_API_KEY and optional CAST_LLM_MODEL."@
}

impl LlmError {
    /// The error's message.
    pub fn message(&self) -> (r: String)
        ensures
            r@ == spec_error_message(*self),
    {
        match self {
            LlmError::MissingApiKey => owned("missing OPENAI_API_KEY"),
            LlmError::Request(m) => {
                let mut r = owned("llm request failed: ");
                push_str(&mut r, m.as_str());
                r
            },
            LlmError::EmptyResponse => owned("empty llm response"),
        }
    }
}

/// Reply payload routed from background llm tasks back to the app loop.
pub struct AssistantReply {
    /// Destination tab index at submit time.
    pub tab_index: usize,
    /// Assistant text to append to the tab transcript.
    pub message: String,
}

/// Stateless launcher for background llm reply jobs.
#[derive(Clone, Copy, Debug)]
pub struct LlmService;

impl LlmService {
    /// Creates a new stateless llm service handle.
    pub fn new() -> (r: Self) {
        Self
    }
}

impl Default for LlmService {
    fn default() -> (r: Self) {
        Self
    }
}

/// The transcript text for a failed request: the error and a hint about
/// the environment variables.
pub fn format_user_facing_error(error: LlmError) -> (r: String)
    ensures
        r@ == spec_user_facing_error(error),
{
    let mut r = owned("llm request failed: ");
    let m = error.message();
    push_str(&mut r, m.as_str());
    push_str(&mut r, ". set OPENAI_API_KEY and optional CAST_LLM_MODEL.");
    r
}

/// The assistant text for a request outcome: the reply, or the
/// user-facing error text.
pub fn assistant_message(outcome: Result<String, LlmError>) -> (r: String)
    ensures
        outcome matches Ok(content) ==> r@ == content@,
        outcome matches Err(e) ==> r@ == spec_user_facing_error(e),
{
    match outcome {
        Ok(content) => content,
        Err(error) => format_user_facing_error(error),
    }
}

/// The reply for a provider response: its trimmed text, unless that is
/// empty; a provider error becomes a request error with its message.
pub fn finish_reply(response: Result<String, String>) -> (r: Result<String, LlmError>)
    ensures
        response matches Err(e) ==> (r matches Err(LlmError::Request(m)) && m@ == e@),
        response matches Ok(text) ==> if trim(text@).len() == 0 {
            r matches Err(LlmError::EmptyResponse)
        } else {
            r matches Ok(content) && content@ == trim(text@)
        },
{
    match response {
        Err(e) => Err(LlmError::Request(e)),
        Ok(text) => {
            let content = trim_str(text.as_str());
            if content.as_str().is_empty() {
                Err(LlmError::EmptyResponse)
            } else {
                Ok(content)
            }
        },
    }
}

} // verus!
