//! Text completion, at once or streamed: what to send for the arguments
//! given, and what to show for what came back.

use crate::actions::{Cause, Failure};
use crate::args::{TopKFromStrAdapter, TopPFromStrAdapter};
use crate::completion::{
    BlockingExecution, CompletionResult, ExecutionError, Reply, StreamingExecution,
    TextCompletionBuilder,
};
use crate::number::Binary64;
use crate::parameters::{texts, Stop, ValidationError, STOP_MAX};
use crate::stream::{continues_after, FragmentSequence, Pull};
use crate::style::{bold, bold_text};
use crate::text::{append_decimal, decimal};
use crate::textsynth::Engine;
use vstd::prelude::*;
use vstd::string::*;

verus! {

/// What to say where the generation length does not fit the engine.
pub open spec fn max_tokens_context(given: nat, limit: nat) -> Seq<char> {
    "the maximum number of tokens given, "@ + decimal(given)
        + ", is not enough to fit in the engine definition (maximum supported for current engine definition is "@
        + decimal(limit) + ")"@
}

/// What to say where more stop sequences are given than a request takes.
pub open spec fn until_context(given: nat) -> Seq<char> {
    "passed overflowing "@ + bold_text("until"@) + " argument; expected <= 5 items but got "@
        + decimal(given)
}

/// What to say where a request, or the opening of a stream, found no
/// usable answer.
pub open spec fn connect_context() -> Seq<char> {
    "failed to connect to the textsynth api"@
}

/// What to say where the service refused to complete.
pub open spec fn generate_context() -> Seq<char> {
    "failed to generate a text completion now"@
}

/// What to say where the connection broke in the middle of a stream.
pub open spec fn stream_connect_context() -> Seq<char> {
    "failed to connect to textsynth api"@
}

/// What to say where a chunk of a stream does not decode.
pub open spec fn stream_parse_context() -> Seq<char> {
    "failed to parse output from textsynth api to json"@
}

/// What to say where the service reports an error in place of a
/// fragment.
pub open spec fn stream_next_context() -> Seq<char> {
    "failed to get next text completion"@
}

/// The warning that the prompt was truncated.
pub open spec fn truncated_warning() -> Seq<char> {
    "prompt was truncated; the prompt was too large compared to the engine definition's maximum context length"@
}

/// The tip that goes with the warning of a truncated prompt.
pub open spec fn truncated_tip() -> Seq<char> {
    "try shortening your prompt to fit in the engine definition's maximum context length"@
}

/// The line that tells the tokens used.
pub open spec fn total_tokens_info(total_tokens: nat) -> Seq<char> {
    "total tokens used: "@ + bold_text(decimal(total_tokens))
}

/// The candidate count that an argument holds, if one was given.
pub open spec fn unwrap_top_k(top_k: Option<TopKFromStrAdapter>) -> Option<nat> {
    match top_k {
        Some(adapter) => Some(adapter.0@),
        None => None,
    }
}

/// The probability threshold that an argument holds, if one was given.
pub open spec fn unwrap_top_p(top_p: Option<TopPFromStrAdapter>) -> Option<Binary64> {
    match top_p {
        Some(adapter) => Some(adapter.0@),
        None => None,
    }
}

/// A length as a natural number, if one was given.
pub open spec fn as_nat(value: Option<usize>) -> Option<nat> {
    match value {
        Some(n) => Some(n as nat),
        None => None,
    }
}

/// Builds the request that both ways of completing share: the prompt for
/// `engine`, with each sampling parameter that was given. The generation
/// length is checked against the engine here, before anything is sent.
pub fn common(
    engine: &Engine,
    prompt: String,
    max_tokens: Option<usize>,
    temperature: Option<Binary64>,
    top_k: Option<TopKFromStrAdapter>,
    top_p: Option<TopPFromStrAdapter>,
) -> (result: Result<TextCompletionBuilder, Failure>)
    ensures
        result is Ok <==> (max_tokens matches Some(n) ==> 1 <= n <= engine.definition.capacity()),
        (result matches Ok(builder) ==> {
            &&& builder.definition() == engine.definition
            &&& builder.prompt() == prompt@
            &&& builder.max_tokens() == as_nat(max_tokens)
            &&& builder.temperature() == temperature
            &&& builder.top_k() == unwrap_top_k(top_k)
            &&& builder.top_p() == unwrap_top_p(top_p)
        }),
        (result matches Err(failure) ==> {
            &&& failure.context@ == max_tokens_context(
                max_tokens->0 as nat,
                engine.definition.capacity(),
            )
            &&& failure.cause == Cause::Validation(
                ValidationError::MaxTokensOutOfBounds {
                    given: max_tokens->0,
                    limit: engine.definition.capacity() as usize,
                },
            )
        }),
{
    let builder = engine.text_completion(prompt);
    let builder = match builder.with_max_tokens(max_tokens) {
        Ok(builder) => builder,
        Err(error) => {
            let given: usize = match max_tokens {
                Some(n) => n,
                None => 0,
            };
            let mut context = String::new();
            context.append("the maximum number of tokens given, ");
            append_decimal(&mut context, given as u64);
            context.append(
                ", is not enough to fit in the engine definition (maximum supported for current engine definition is ",
            );
            append_decimal(&mut context, engine.definition.max_tokens() as u64);
            context.append(")");
            assert(context@ =~= max_tokens_context(given as nat, engine.definition.capacity()));
            return Err(Failure { context, cause: Cause::Validation(error) });
        },
    };
    let top_k = match top_k {
        Some(adapter) => Some(adapter.0),
        None => None,
    };
    let top_p = match top_p {
        Some(adapter) => Some(adapter.0),
        None => None,
    };
    Ok(builder.with_temperature(temperature).with_top_k(top_k).with_top_p(top_p))
}

/// The stop sequences that `until` stands for: none where it is empty.
pub open spec fn stop_of(until: Seq<String>) -> Option<Seq<Seq<char>>> {
    if until.len() == 0 {
        None
    } else {
        Some(texts(until))
    }
}

/// What preparing a completion in one piece comes to, for the arguments
/// given.
pub open spec fn now_prepared(
    engine: &Engine,
    prompt: Seq<char>,
    max_tokens: Option<usize>,
    temperature: Option<Binary64>,
    top_k: Option<TopKFromStrAdapter>,
    top_p: Option<TopPFromStrAdapter>,
    until: Seq<String>,
    result: Result<BlockingExecution, Failure>,
) -> bool {
    &&& (result is Ok <==> until.len() <= STOP_MAX && (max_tokens matches Some(n) ==> 1 <= n
        <= engine.definition.capacity()))
    &&& (result matches Ok(execution) ==> {
        &&& execution.request()@.engine_id == engine.definition.spec_id()
        &&& execution.request()@.prompt == prompt
        &&& execution.request()@.max_tokens == as_nat(max_tokens)
        &&& execution.request()@.temperature == temperature
        &&& execution.request()@.top_k == unwrap_top_k(top_k)
        &&& execution.request()@.top_p == unwrap_top_p(top_p)
        &&& execution.request()@.stop == stop_of(until)
        &&& !execution.request()@.stream
        &&& execution.request()@.within_bounds(engine.definition.capacity())
    })
    &&& (result matches Err(failure) ==> if until.len() > STOP_MAX {
        &&& failure.context@ == until_context(until.len())
        &&& failure.cause == Cause::Validation(
            ValidationError::TooManyStops { given: until.len() as usize },
        )
    } else {
        &&& failure.context@ == max_tokens_context(
            max_tokens->0 as nat,
            engine.definition.capacity(),
        )
        &&& failure.cause == Cause::Validation(
            ValidationError::MaxTokensOutOfBounds {
                given: max_tokens->0,
                limit: engine.definition.capacity() as usize,
            },
        )
    })
}

/// Prepares a completion that comes back in one piece.
///
/// An empty `until` sets no stop sequence; more than five are refused,
/// before the generation length is looked at. What is returned holds the
/// one request to send.
pub fn now(
    engine: &Engine,
    prompt: String,
    max_tokens: Option<usize>,
    temperature: Option<Binary64>,
    top_k: Option<TopKFromStrAdapter>,
    top_p: Option<TopPFromStrAdapter>,
    until: Vec<String>,
) -> (result: Result<BlockingExecution, Failure>)
    ensures
        now_prepared(engine, prompt@, max_tokens, temperature, top_k, top_p, until@, result),
{
    let given: usize = until.len();
    let stop: Option<Stop> = if given == 0 {
        None
    } else {
        match Stop::new(until) {
            Ok(stop) => Some(stop),
            Err(error) => {
                let mut context = String::new();
                context.append("passed overflowing ");
                context.append(bold("until").as_str());
                context.append(" argument; expected <= 5 items but got ");
                append_decimal(&mut context, given as u64);
                assert(context@ =~= until_context(given as nat));
                return Err(Failure { context, cause: Cause::Validation(error) });
            },
        }
    };
    match common(engine, prompt, max_tokens, temperature, top_k, top_p) {
        Ok(builder) => Ok(builder.execute_now(stop)),
        Err(failure) => Err(failure),
    }
}

/// What to show for a completion that came back in one piece.
#[derive(Debug, PartialEq, Eq)]
pub struct NowReport {
    /// What goes to standard output: the prompt, the completion and a
    /// line feed.
    pub output: String,
    /// Warnings for the user.
    pub warnings: Vec<String>,
    /// Tips for the user.
    pub tips: Vec<String>,
    /// Further information for the user.
    pub infos: Vec<String>,
}

/// The report for `completion` of `prompt`: the text, a warning and a tip
/// where the prompt was truncated, and the tokens used where known.
pub open spec fn now_report_of(prompt: Seq<char>, completion: CompletionResult, report: NowReport)
    -> bool {
    &&& report.output@ == prompt + completion.text@ + seq!['\n']
    &&& texts(report.warnings@) == if completion.truncated_prompt {
        seq![truncated_warning()]
    } else {
        Seq::<Seq<char>>::empty()
    }
    &&& texts(report.tips@) == if completion.truncated_prompt {
        seq![truncated_tip()]
    } else {
        Seq::<Seq<char>>::empty()
    }
    &&& texts(report.infos@) == match completion.total_tokens {
        Some(total_tokens) => seq![total_tokens_info(total_tokens as nat)],
        None => Seq::<Seq<char>>::empty(),
    }
}

/// Ends a completion that comes back in one piece with what the
/// transport reported, and says what to show.
///
/// A completion is shown as it is; that its prompt was truncated is a
/// warning, no failure. A failure names the stage: the connection, where
/// nothing usable arrived, or the generation, where the service refused.
pub fn now_report(execution: BlockingExecution, reply: Reply<CompletionResult>) -> (result: Result<
    NowReport,
    Failure,
>)
    ensures
        (match reply.outcome() {
            Ok(completion) => result matches Ok(report) && now_report_of(
                execution.request().prompt@,
                completion,
                report,
            ),
            Err(error) => result matches Err(failure) && failure.cause == Cause::Execution(error)
                && failure.context@ == if error is Api {
                generate_context()
            } else {
                connect_context()
            },
        }),
{
    let mut output = execution.wire_request().prompt.clone();
    match execution.complete(reply) {
        Ok(completion) => {
            output.append(completion.text());
            output.append("\n");
            proof {
                reveal_strlit("\n");
            }
            assert(output@ =~= execution.request().prompt@ + completion.text@ + seq!['\n']);
            let mut warnings: Vec<String> = Vec::new();
            let mut tips: Vec<String> = Vec::new();
            let mut infos: Vec<String> = Vec::new();
            if completion.truncated_prompt() {
                warnings.push(
                    "prompt was truncated; the prompt was too large compared to the engine definition's maximum context length".to_owned(),
                );
                tips.push(
                    "try shortening your prompt to fit in the engine definition's maximum context length".to_owned(),
                );
            }
            match completion.total_tokens() {
                Some(total_tokens) => {
                    let mut digits = String::new();
                    append_decimal(&mut digits, total_tokens as u64);
                    assert(digits@ =~= decimal(total_tokens as nat));
                    let mut info = "total tokens used: ".to_owned();
                    info.append(bold(digits.as_str()).as_str());
                    infos.push(info);
                },
                None => {},
            }
            let report = NowReport { output, warnings, tips, infos };
            proof {
                assert(texts(report.warnings@) =~= if completion.truncated_prompt {
                    seq![truncated_warning()]
                } else {
                    Seq::<Seq<char>>::empty()
                });
                assert(texts(report.tips@) =~= if completion.truncated_prompt {
                    seq![truncated_tip()]
                } else {
                    Seq::<Seq<char>>::empty()
                });
                assert(texts(report.infos@) =~= match completion.total_tokens {
                    Some(total_tokens) => seq![total_tokens_info(total_tokens as nat)],
                    None => Seq::<Seq<char>>::empty(),
                });
            }
            Ok(report)
        },
        Err(error) => {
            let context = if error.is_api() {
                "failed to generate a text completion now".to_owned()
            } else {
                "failed to connect to the textsynth api".to_owned()
            };
            Err(Failure { context, cause: Cause::Execution(error) })
        },
    }
}

/// What preparing a streamed completion comes to, for the arguments
/// given.
pub open spec fn stream_prepared(
    engine: &Engine,
    prompt: Seq<char>,
    max_tokens: Option<usize>,
    temperature: Option<Binary64>,
    top_k: Option<TopKFromStrAdapter>,
    top_p: Option<TopPFromStrAdapter>,
    result: Result<StreamingExecution, Failure>,
) -> bool {
    &&& (result is Ok <==> (max_tokens matches Some(n) ==> 1 <= n
        <= engine.definition.capacity()))
    &&& (result matches Ok(execution) ==> {
        &&& execution.request()@.engine_id == engine.definition.spec_id()
        &&& execution.request()@.prompt == prompt
        &&& execution.request()@.max_tokens == as_nat(max_tokens)
        &&& execution.request()@.temperature == temperature
        &&& execution.request()@.top_k == unwrap_top_k(top_k)
        &&& execution.request()@.top_p == unwrap_top_p(top_p)
        &&& execution.request()@.stop is None
        &&& execution.request()@.stream
        &&& execution.request()@.within_bounds(engine.definition.capacity())
    })
    &&& (result matches Err(failure) ==> {
        &&& failure.context@ == max_tokens_context(
            max_tokens->0 as nat,
            engine.definition.capacity(),
        )
        &&& failure.cause == Cause::Validation(
            ValidationError::MaxTokensOutOfBounds {
                given: max_tokens->0,
                limit: engine.definition.capacity() as usize,
            },
        )
    })
}

/// Prepares a completion that comes back in fragments. What is returned
/// holds the one request to send.
pub fn stream(
    engine: &Engine,
    prompt: String,
    max_tokens: Option<usize>,
    temperature: Option<Binary64>,
    top_k: Option<TopKFromStrAdapter>,
    top_p: Option<TopPFromStrAdapter>,
) -> (result: Result<StreamingExecution, Failure>)
    ensures
        stream_prepared(engine, prompt@, max_tokens, temperature, top_k, top_p, result),
{
    match common(engine, prompt, max_tokens, temperature, top_k, top_p) {
        Ok(builder) => Ok(builder.execute_stream(None)),
        Err(failure) => Err(failure),
    }
}

/// A stream that was opened: the prompt, which is shown before the first
/// fragment, and the sequence of the fragments to come.
#[derive(Debug, PartialEq, Eq)]
pub struct StreamStart {
    pub prompt: String,
    pub sequence: FragmentSequence,
}

/// Takes what the transport reported of opening the stream: the cause
/// where it could not be opened, nothing where it could.
pub fn stream_opened(execution: StreamingExecution, failure: Option<String>) -> (result: Result<
    StreamStart,
    Failure,
>)
    ensures
        (match failure {
            Some(cause) => result matches Err(failure) && failure.context@ == connect_context()
                && failure.cause == Cause::Execution(ExecutionError::Transport { cause }),
            None => result matches Ok(start) && start.prompt@ == execution.request().prompt@
                && !start.sequence.is_terminated(),
        }),
{
    let prompt = execution.wire_request().prompt.clone();
    match execution.opened(failure) {
        Ok(sequence) => Ok(StreamStart { prompt, sequence }),
        Err(error) => Err(
            Failure {
                context: "failed to connect to the textsynth api".to_owned(),
                cause: Cause::Execution(error),
            },
        ),
    }
}

/// What to do after one pull of a streamed completion.
#[derive(Debug, PartialEq, Eq)]
pub enum StreamStep {
    /// Print the fragment's text and pull again.
    Print { text: String },
    /// The stream has ended: print a line feed and stop pulling.
    Finish,
    /// The stream has failed: stop pulling.
    Fail(Failure),
}

/// The stage at which an element of a stream failed.
pub open spec fn stream_context(error: ExecutionError) -> Seq<char> {
    match error {
        ExecutionError::Transport { .. } => stream_connect_context(),
        ExecutionError::Decode { .. } => stream_parse_context(),
        ExecutionError::Api { .. } => stream_next_context(),
    }
}

/// Hands one pull to the fragment sequence and says what to do about it.
///
/// A fragment is printed, and the stream goes on. The end of the stream
/// finishes the output. A failure ends the stream and names its stage:
/// the connection, the decoding, or the service's own refusal. On a
/// sequence that has terminated nothing is left to do but finish.
pub fn stream_step(sequence: &mut FragmentSequence, pull: Pull) -> (result: StreamStep)
    ensures
        old(sequence).is_terminated() ==> result == StreamStep::Finish
            && final(sequence).is_terminated(),
        (!old(sequence).is_terminated() ==> final(sequence).is_terminated() == !continues_after(pull)
            && match pull {
            None => result == StreamStep::Finish,
            Some(reply) => match reply.outcome() {
                Ok(fragment) => result matches StreamStep::Print { text } && text@
                    == fragment.text@,
                Err(error) => result matches StreamStep::Fail(failure) && failure.cause
                    == Cause::Execution(error) && failure.context@ == stream_context(error),
            },
        }),
{
    match sequence.next(pull) {
        None => StreamStep::Finish,
        Some(Ok(fragment)) => StreamStep::Print { text: fragment.text },
        Some(Err(error)) => {
            let context = match &error {
                ExecutionError::Transport { .. } => "failed to connect to textsynth api".to_owned(),
                ExecutionError::Decode { .. } => "failed to parse output from textsynth api to json".to_owned(),
                ExecutionError::Api { .. } => "failed to get next text completion".to_owned(),
            };
            StreamStep::Fail(Failure { context, cause: Cause::Execution(error) })
        },
    }
}

} // verus!
