//! What the program does for each of its commands, as far as it is
//! decided here: what to send, and what to tell the user.

pub mod config;
pub mod text_completion;

use crate::args::{
    NonEmptyStringFromStrAdapter, SynthTextTextCompletionMethod, TopKFromStrAdapter,
    TopPFromStrAdapter,
};
use crate::completion::{
    BlockingExecution, ExecutionError, LogProbabilities, LogProbabilitiesExecution, Reply,
    StreamingExecution,
};
use crate::number::Binary64;
use crate::parameters::{texts, ValidationError};
use crate::style::{bold, bold_text};
use crate::text::{append_decimal, decimal};
use crate::textsynth::Engine;
use vstd::prelude::*;
use vstd::string::*;

verus! {

/// What lies behind a failure.
#[derive(Debug, PartialEq, Eq)]
pub enum Cause {
    /// An argument was out of bounds: nothing was sent.
    Validation(ValidationError),
    /// The request was sent and came to nothing.
    Execution(ExecutionError),
}

/// A failure of a command: the stage that failed, in words, and what lies
/// behind it.
#[derive(Debug, PartialEq, Eq)]
pub struct Failure {
    pub context: String,
    pub cause: Cause,
}

impl Failure {
    /// Whether the command may succeed if it is run again as it is: only
    /// where the connection failed.
    pub fn is_retryable(&self) -> (result: bool)
        ensures
            result == (self.cause matches Cause::Execution(ExecutionError::Transport { .. })),
    {
        match &self.cause {
            Cause::Execution(error) => error.is_retryable(),
            Cause::Validation(_) => false,
        }
    }
}

/// A text completion that is ready to be sent.
#[derive(Debug, PartialEq, Eq)]
pub enum Started {
    Now(BlockingExecution),
    Stream(StreamingExecution),
}

/// Prepares a text completion in the way that `method` names.
pub fn text_completion(
    engine: &Engine,
    prompt: String,
    max_tokens: Option<usize>,
    temperature: Option<Binary64>,
    top_k: Option<TopKFromStrAdapter>,
    top_p: Option<TopPFromStrAdapter>,
    method: SynthTextTextCompletionMethod,
) -> (result: Result<Started, Failure>)
    ensures
        (match method {
            SynthTextTextCompletionMethod::Now { until } => match result {
                Ok(Started::Now(execution)) => text_completion::now_prepared(
                    engine,
                    prompt@,
                    max_tokens,
                    temperature,
                    top_k,
                    top_p,
                    until@,
                    Ok(execution),
                ),
                Ok(Started::Stream(_)) => false,
                Err(failure) => text_completion::now_prepared(
                    engine,
                    prompt@,
                    max_tokens,
                    temperature,
                    top_k,
                    top_p,
                    until@,
                    Err(failure),
                ),
            },
            SynthTextTextCompletionMethod::Stream => match result {
                Ok(Started::Stream(execution)) => text_completion::stream_prepared(
                    engine,
                    prompt@,
                    max_tokens,
                    temperature,
                    top_k,
                    top_p,
                    Ok(execution),
                ),
                Ok(Started::Now(_)) => false,
                Err(failure) => text_completion::stream_prepared(
                    engine,
                    prompt@,
                    max_tokens,
                    temperature,
                    top_k,
                    top_p,
                    Err(failure),
                ),
            },
        }),
{
    match method {
        SynthTextTextCompletionMethod::Now { until } => {
            match text_completion::now(engine, prompt, max_tokens, temperature, top_k, top_p, until) {
                Ok(execution) => Ok(Started::Now(execution)),
                Err(failure) => Err(failure),
            }
        },
        SynthTextTextCompletionMethod::Stream => {
            match text_completion::stream(engine, prompt, max_tokens, temperature, top_k, top_p) {
                Ok(execution) => Ok(Started::Stream(execution)),
                Err(failure) => Err(failure),
            }
        },
    }
}

/// A request for log probabilities that is ready to be sent, and what to
/// tell the user beforehand.
#[derive(Debug, PartialEq, Eq)]
pub struct LogProbabilitiesStart {
    pub announcements: Vec<String>,
    pub execution: LogProbabilitiesExecution,
}

/// The two lines that repeat what was asked.
pub open spec fn announcements_of(context: Seq<char>, continuation: Seq<char>) -> Seq<Seq<char>> {
    seq![
        "the provided context was: '"@ + context + "'"@,
        "the predicted continuation was: '"@ + continuation + "'"@,
    ]
}

/// Prepares a request for the log probability with which `continuation`
/// follows `context`, and repeats both to the user.
pub fn log_probabilities(
    engine: &Engine,
    context: String,
    continuation: NonEmptyStringFromStrAdapter,
) -> (result: LogProbabilitiesStart)
    ensures
        texts(result.announcements@) == announcements_of(context@, continuation.0@),
        result.execution.request().engine_id@ == engine.definition.spec_id(),
        result.execution.request().context@ == context@,
        result.execution.request().continuation@ == continuation.0@,
        result.execution.request().continuation@.len() > 0,
{
    let continuation = continuation.0;
    let mut first = "the provided context was: '".to_owned();
    first.append(context.as_str());
    first.append("'");
    let mut second = "the predicted continuation was: '".to_owned();
    second.append(continuation.inner());
    second.append("'");
    let mut announcements: Vec<String> = Vec::new();
    announcements.push(first);
    announcements.push(second);
    assert(texts(announcements@) =~= announcements_of(context@, continuation@));
    LogProbabilitiesStart { announcements, execution: engine.log_probabilities(context, continuation) }
}

/// The word for a truth value.
pub open spec fn truth_text(value: bool) -> Seq<char> {
    if value {
        "true"@
    } else {
        "false"@
    }
}

/// The three lines that tell what the service found. The log probability
/// stands as the caller wrote it out.
pub open spec fn log_probabilities_lines(found: LogProbabilities, log_probability: Seq<char>) -> Seq<
    Seq<char>,
> {
    seq![
        "log probability: "@ + bold_text(log_probability),
        "is greedy: "@ + bold_text(truth_text(found.is_greedy)),
        "total tokens: "@ + bold_text(decimal(found.total_tokens as nat)),
    ]
}

/// Says what the service found. To write out the log probability, a
/// real number, is the caller's part: `log_probability` is that text.
pub fn log_probabilities_lines_of(found: &LogProbabilities, log_probability: &str) -> (result: Vec<
    String,
>)
    ensures
        texts(result@) == log_probabilities_lines(*found, log_probability@),
{
    let mut first = "log probability: ".to_owned();
    first.append(bold(log_probability).as_str());
    let mut second = "is greedy: ".to_owned();
    let truth = if found.is_greedy() {
        "true"
    } else {
        "false"
    };
    second.append(bold(truth).as_str());
    let mut digits = String::new();
    append_decimal(&mut digits, found.total_tokens() as u64);
    assert(digits@ =~= decimal(found.total_tokens as nat));
    let mut third = "total tokens: ".to_owned();
    third.append(bold(digits.as_str()).as_str());
    let mut lines: Vec<String> = Vec::new();
    lines.push(first);
    lines.push(second);
    lines.push(third);
    assert(texts(lines@) =~= log_probabilities_lines(*found, log_probability@));
    lines
}

/// Ends a request for log probabilities with what the transport
/// reported. A failure names the stage: the connection, where nothing
/// usable arrived, or the computation, where the service refused.
pub fn log_probabilities_report(
    execution: LogProbabilitiesExecution,
    reply: Reply<LogProbabilities>,
) -> (result: Result<LogProbabilities, Failure>)
    ensures
        (match reply.outcome() {
            Ok(found) => result == Ok::<LogProbabilities, Failure>(found),
            Err(error) => result matches Err(failure) && failure.cause == Cause::Execution(error)
                && failure.context@ == if error is Api {
                "failed to get log probabilities"@
            } else {
                "failed to connect to the textsynth api"@
            },
        }),
{
    match execution.complete(reply) {
        Ok(found) => Ok(found),
        Err(error) => {
            let context = if error.is_api() {
                "failed to get log probabilities".to_owned()
            } else {
                "failed to connect to the textsynth api".to_owned()
            };
            Err(Failure { context, cause: Cause::Execution(error) })
        },
    }
}

} // verus!
