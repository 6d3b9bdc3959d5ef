//! Completion requests and what comes back for them.
//!
//! A [`TextCompletionBuilder`] gathers a prompt and optional sampling
//! parameters for one engine. Executing it consumes it and gives the one
//! [`Request`] to put on the wire. Whatever the transport reports for that
//! request is a [`Reply`]; the execution turns the reply into a result or
//! into one [`ExecutionError`].

use crate::engine::EngineDefinition;
use crate::number::{in_unit_interval, Binary64};
use crate::parameters::{
    texts, MaxTokens, NonEmptyString, Stop, TopK, TopP, ValidationError, STOP_MAX, TOP_K_MAX,
};
use crate::stream::FragmentSequence;
use vstd::prelude::*;

verus! {

/// Why a request, or one element of a stream, came to nothing.
#[derive(Debug, PartialEq, Eq)]
pub enum ExecutionError {
    /// The service could not be reached, or the connection broke.
    Transport { cause: String },
    /// The service answered with a well-formed error payload.
    Api { status: u16, message: String },
    /// The service answered with something that is no completion.
    Decode { cause: String },
}

impl ExecutionError {
    /// Whether the service itself refused.
    pub fn is_api(&self) -> (result: bool)
        ensures
            result == (self is Api),
    {
        match self {
            ExecutionError::Api { .. } => true,
            _ => false,
        }
    }

    /// Only a transport failure can go away by sending the request again.
    pub fn is_retryable(&self) -> (result: bool)
        ensures
            result == (self is Transport),
    {
        match self {
            ExecutionError::Transport { .. } => true,
            _ => false,
        }
    }
}

/// What the transport and its decoder report of one response, or of one
/// chunk of a streamed response.
#[derive(Debug, PartialEq, Eq)]
pub enum Reply<T> {
    /// Nothing arrived: the connection failed or timed out.
    TransportFailed { cause: String },
    /// Something arrived that does not decode.
    Undecodable { cause: String },
    /// An error payload arrived.
    ApiFailed { status: u16, message: String },
    /// The expected value arrived.
    Decoded(T),
}

impl<T> Reply<T> {
    /// The reply as a result: the decoded value, or the error of the layer
    /// that failed, with its cause untouched.
    pub open spec fn outcome(self) -> Result<T, ExecutionError> {
        match self {
            Reply::TransportFailed { cause } => Err(ExecutionError::Transport { cause }),
            Reply::Undecodable { cause } => Err(ExecutionError::Decode { cause }),
            Reply::ApiFailed { status, message } => Err(ExecutionError::Api { status, message }),
            Reply::Decoded(value) => Ok(value),
        }
    }

    /// Folds the three layers of failure into one error channel.
    pub fn into_result(self) -> (result: Result<T, ExecutionError>)
        ensures
            result == self.outcome(),
    {
        match self {
            Reply::TransportFailed { cause } => Err(ExecutionError::Transport { cause }),
            Reply::Undecodable { cause } => Err(ExecutionError::Decode { cause }),
            Reply::ApiFailed { status, message } => Err(ExecutionError::Api { status, message }),
            Reply::Decoded(value) => Ok(value),
        }
    }
}

/// The outcome of a blocking completion.
#[derive(Debug, PartialEq, Eq)]
pub struct CompletionResult {
    pub text: String,
    pub truncated_prompt: bool,
    pub total_tokens: Option<usize>,
}

impl CompletionResult {
    /// The generated continuation.
    pub fn text(&self) -> (result: &str)
        ensures
            result@ == self.text@,
    {
        self.text.as_str()
    }

    /// Whether the service cut the prompt to fit the engine's context. This
    /// is a warning to pass on, not a failure.
    pub fn truncated_prompt(&self) -> (result: bool)
        ensures
            result == self.truncated_prompt,
    {
        self.truncated_prompt
    }

    /// Tokens used by prompt and continuation together, where the service
    /// said so.
    pub fn total_tokens(&self) -> (result: Option<usize>)
        ensures
            result == self.total_tokens,
    {
        self.total_tokens
    }
}

/// What the service adds to the last fragment of a stream.
#[derive(Clone, Copy, Debug, PartialEq, Eq, Structural)]
pub struct StreamSummary {
    pub truncated_prompt: bool,
    pub total_tokens: Option<usize>,
}

/// One increment of a streamed completion.
#[derive(Debug, PartialEq, Eq)]
pub struct CompletionFragment {
    pub text: String,
    /// Present on the last fragment only.
    pub summary: Option<StreamSummary>,
}

impl CompletionFragment {
    /// The text generated since the previous fragment.
    pub fn text(&self) -> (result: &str)
        ensures
            result@ == self.text@,
    {
        self.text.as_str()
    }

    /// Whether the service marked this fragment as the last.
    pub fn is_last(&self) -> (result: bool)
        ensures
            result == self.summary is Some,
    {
        self.summary.is_some()
    }
}

/// What goes on the wire for one completion: plain values, ready to be
/// encoded.
#[derive(Debug, PartialEq, Eq)]
pub struct Request {
    pub engine_id: String,
    pub prompt: String,
    pub max_tokens: Option<usize>,
    pub temperature: Option<Binary64>,
    pub top_k: Option<u16>,
    pub top_p: Option<Binary64>,
    pub stop: Option<Vec<String>>,
    pub stream: bool,
}

/// A [`Request`] as mathematical values.
pub struct RequestView {
    pub engine_id: Seq<char>,
    pub prompt: Seq<char>,
    pub max_tokens: Option<nat>,
    pub temperature: Option<Binary64>,
    pub top_k: Option<nat>,
    pub top_p: Option<Binary64>,
    pub stop: Option<Seq<Seq<char>>>,
    pub stream: bool,
}

impl RequestView {
    /// Every sampling field that is set lies within its bound, for an
    /// engine with a context of `capacity` tokens.
    pub open spec fn within_bounds(self, capacity: nat) -> bool {
        &&& self.max_tokens matches Some(n) ==> 1 <= n <= capacity
        &&& self.top_k matches Some(k) ==> k <= TOP_K_MAX
        &&& self.top_p matches Some(p) ==> in_unit_interval(p.bits)
        &&& self.stop matches Some(s) ==> s.len() <= STOP_MAX
    }
}

impl View for Request {
    type V = RequestView;

    open spec fn view(&self) -> RequestView {
        RequestView {
            engine_id: self.engine_id@,
            prompt: self.prompt@,
            max_tokens: match self.max_tokens {
                Some(n) => Some(n as nat),
                None => None,
            },
            temperature: self.temperature,
            top_k: match self.top_k {
                Some(k) => Some(k as nat),
                None => None,
            },
            top_p: self.top_p,
            stop: match self.stop {
                Some(s) => Some(texts(s@)),
                None => None,
            },
            stream: self.stream,
        }
    }
}

/// A prompt for one engine, with the sampling parameters set so far. Unset
/// parameters are left to the service's defaults.
#[derive(Debug, PartialEq, Eq)]
pub struct TextCompletionBuilder {
    definition: EngineDefinition,
    prompt: String,
    max_tokens: Option<MaxTokens>,
    temperature: Option<Binary64>,
    top_k: Option<TopK>,
    top_p: Option<TopP>,
}

impl TextCompletionBuilder {
    #[verifier::type_invariant]
    spec fn fits_engine(self) -> bool {
        self.max_tokens matches Some(n) ==> 1 <= n@ <= self.definition.capacity()
    }

    /// The engine that the request is meant for.
    pub closed spec fn definition(&self) -> EngineDefinition {
        self.definition
    }

    /// The text to continue.
    pub closed spec fn prompt(&self) -> Seq<char> {
        self.prompt@
    }

    /// The generation length, where one is set.
    pub closed spec fn max_tokens(&self) -> Option<nat> {
        match self.max_tokens {
            Some(n) => Some(n@),
            None => None,
        }
    }

    /// The sampling temperature, where one is set.
    pub closed spec fn temperature(&self) -> Option<Binary64> {
        self.temperature
    }

    /// The candidate count, where one is set.
    pub closed spec fn top_k(&self) -> Option<nat> {
        match self.top_k {
            Some(k) => Some(k@),
            None => None,
        }
    }

    /// The probability threshold, where one is set.
    pub closed spec fn top_p(&self) -> Option<Binary64> {
        match self.top_p {
            Some(p) => Some(p@),
            None => None,
        }
    }

    /// The request that executing the builder puts on the wire.
    pub open spec fn wire(&self, stop: Option<Seq<Seq<char>>>, stream: bool) -> RequestView {
        RequestView {
            engine_id: self.definition().spec_id(),
            prompt: self.prompt(),
            max_tokens: self.max_tokens(),
            temperature: self.temperature(),
            top_k: self.top_k(),
            top_p: self.top_p(),
            stop,
            stream,
        }
    }

    /// A request for `definition` to continue `prompt`, with no sampling
    /// parameter set.
    pub fn new(definition: EngineDefinition, prompt: String) -> (result: TextCompletionBuilder)
        ensures
            result.definition() == definition,
            result.prompt() == prompt@,
            result.max_tokens() is None,
            result.temperature() is None,
            result.top_k() is None,
            result.top_p() is None,
    {
        TextCompletionBuilder {
            definition,
            prompt,
            max_tokens: None,
            temperature: None,
            top_k: None,
            top_p: None,
        }
    }

    /// Sets the generation length, or leaves it to the service. The length
    /// is checked against the builder's own engine; where it does not fit,
    /// the builder is lost with it and nothing can be sent.
    pub fn with_max_tokens(self, max_tokens: Option<usize>) -> (result: Result<
        TextCompletionBuilder,
        ValidationError,
    >)
        ensures
            result is Ok <==> (max_tokens matches Some(n) ==> 1 <= n
                <= self.definition().capacity()),
            (result matches Ok(builder) ==> {
                &&& builder.definition() == self.definition()
                &&& builder.prompt() == self.prompt()
                &&& builder.max_tokens() == match max_tokens {
                    Some(n) => Some(n as nat),
                    None => None,
                }
                &&& builder.temperature() == self.temperature()
                &&& builder.top_k() == self.top_k()
                &&& builder.top_p() == self.top_p()
            }),
            result matches Err(error) ==> error == (ValidationError::MaxTokensOutOfBounds {
                given: max_tokens->0,
                limit: self.definition().capacity() as usize,
            }),
    {
        proof {
            use_type_invariant(&self);
        }
        let checked: Option<MaxTokens> = match max_tokens {
            Some(n) => {
                match MaxTokens::new(n, &self.definition) {
                    Ok(checked) => Some(checked),
                    Err(error) => {
                        return Err(error);
                    },
                }
            },
            None => None,
        };
        Ok(
            TextCompletionBuilder {
                definition: self.definition,
                prompt: self.prompt,
                max_tokens: checked,
                temperature: self.temperature,
                top_k: self.top_k,
                top_p: self.top_p,
            },
        )
    }

    /// Sets the sampling temperature, or leaves it to the service.
    pub fn with_temperature(self, temperature: Option<Binary64>) -> (result: TextCompletionBuilder)
        ensures
            result.definition() == self.definition(),
            result.prompt() == self.prompt(),
            result.max_tokens() == self.max_tokens(),
            result.temperature() == temperature,
            result.top_k() == self.top_k(),
            result.top_p() == self.top_p(),
    {
        proof {
            use_type_invariant(&self);
        }
        TextCompletionBuilder {
            definition: self.definition,
            prompt: self.prompt,
            max_tokens: self.max_tokens,
            temperature,
            top_k: self.top_k,
            top_p: self.top_p,
        }
    }

    /// Sets the candidate count, or leaves it to the service.
    pub fn with_top_k(self, top_k: Option<TopK>) -> (result: TextCompletionBuilder)
        ensures
            result.definition() == self.definition(),
            result.prompt() == self.prompt(),
            result.max_tokens() == self.max_tokens(),
            result.temperature() == self.temperature(),
            (result.top_k() == match top_k {
                Some(k) => Some(k@),
                None => None,
            }),
            result.top_p() == self.top_p(),
    {
        proof {
            use_type_invariant(&self);
        }
        TextCompletionBuilder {
            definition: self.definition,
            prompt: self.prompt,
            max_tokens: self.max_tokens,
            temperature: self.temperature,
            top_k,
            top_p: self.top_p,
        }
    }

    /// Sets the probability threshold, or leaves it to the service.
    pub fn with_top_p(self, top_p: Option<TopP>) -> (result: TextCompletionBuilder)
        ensures
            result.definition() == self.definition(),
            result.prompt() == self.prompt(),
            result.max_tokens() == self.max_tokens(),
            result.temperature() == self.temperature(),
            result.top_k() == self.top_k(),
            (result.top_p() == match top_p {
                Some(p) => Some(p@),
                None => None,
            }),
    {
        proof {
            use_type_invariant(&self);
        }
        TextCompletionBuilder {
            definition: self.definition,
            prompt: self.prompt,
            max_tokens: self.max_tokens,
            temperature: self.temperature,
            top_k: self.top_k,
            top_p,
        }
    }

    fn into_request(self, stop: Option<Stop>, stream: bool) -> (result: Request)
        ensures
            result@ == self.wire(
                match stop {
                    Some(s) => Some(s@),
                    None => None,
                },
                stream,
            ),
            result@.within_bounds(self.definition().capacity()),
    {
        proof {
            use_type_invariant(&self);
        }
        let engine_id: String = self.definition.id().to_owned();
        let max_tokens: Option<usize> = match self.max_tokens {
            Some(n) => Some(n.inner()),
            None => None,
        };
        let top_k: Option<u16> = match self.top_k {
            Some(k) => Some(k.inner()),
            None => None,
        };
        let top_p: Option<Binary64> = match self.top_p {
            Some(p) => Some(p.inner()),
            None => None,
        };
        let stop: Option<Vec<String>> = match stop {
            Some(s) => Some(s.into_inner()),
            None => None,
        };
        Request {
            engine_id,
            prompt: self.prompt,
            max_tokens,
            temperature: self.temperature,
            top_k,
            top_p,
            stop,
            stream,
        }
    }

    /// Starts a blocking completion, which halts at the first occurrence
    /// of a stop sequence where `stop` is given. The builder is used up.
    pub fn execute_now(self, stop: Option<Stop>) -> (result: BlockingExecution)
        ensures
            result.request()@ == self.wire(
                match stop {
                    Some(s) => Some(s@),
                    None => None,
                },
                false,
            ),
            result.request()@.within_bounds(self.definition().capacity()),
    {
        BlockingExecution { request: self.into_request(stop, false) }
    }

    /// Starts a streamed completion, with the same stop sequences as a
    /// blocking one. The builder is used up.
    pub fn execute_stream(self, stop: Option<Stop>) -> (result: StreamingExecution)
        ensures
            result.request()@ == self.wire(
                match stop {
                    Some(s) => Some(s@),
                    None => None,
                },
                true,
            ),
            result.request()@.within_bounds(self.definition().capacity()),
    {
        StreamingExecution { request: self.into_request(stop, true) }
    }
}

/// The first raw value that is out of bounds for an engine with a
/// context of `capacity` tokens: the generation length is looked at
/// first, then the candidate count, then the probability threshold.
pub open spec fn first_violation(
    capacity: nat,
    max_tokens: Option<usize>,
    top_k: Option<u16>,
    top_p: Option<Binary64>,
) -> Option<ValidationError> {
    if max_tokens is Some && !(1 <= max_tokens->0 <= capacity) {
        Some(
            ValidationError::MaxTokensOutOfBounds { given: max_tokens->0, limit: capacity as usize },
        )
    } else if top_k is Some && top_k->0 > TOP_K_MAX {
        Some(ValidationError::TopKOutOfBounds { given: top_k->0 })
    } else if top_p is Some && !in_unit_interval(top_p->0.bits) {
        Some(ValidationError::TopPOutOfBounds { given: top_p->0 })
    } else {
        None
    }
}

/// Builds a request from raw values, each of which is checked against its
/// bound. A request exists only if every value given is within bounds:
/// what is out of bounds never reaches the transport.
pub fn build_request(
    definition: EngineDefinition,
    prompt: String,
    max_tokens: Option<usize>,
    temperature: Option<Binary64>,
    top_k: Option<u16>,
    top_p: Option<Binary64>,
) -> (result: Result<TextCompletionBuilder, ValidationError>)
    ensures
        (match first_violation(definition.capacity(), max_tokens, top_k, top_p) {
            Some(error) => result == Err::<TextCompletionBuilder, ValidationError>(error),
            None => {
                &&& result matches Ok(builder)
                &&& builder.definition() == definition
                &&& builder.prompt() == prompt@
                &&& builder.max_tokens() == match max_tokens {
                    Some(n) => Some(n as nat),
                    None => None,
                }
                &&& builder.temperature() == temperature
                &&& builder.top_k() == match top_k {
                    Some(k) => Some(k as nat),
                    None => None,
                }
                &&& builder.top_p() == top_p
            },
        }),
{
    let builder = TextCompletionBuilder::new(definition, prompt);
    let builder = match builder.with_max_tokens(max_tokens) {
        Ok(builder) => builder,
        Err(error) => {
            return Err(error);
        },
    };
    let top_k: Option<TopK> = match top_k {
        Some(k) => match TopK::new(k) {
            Ok(checked) => Some(checked),
            Err(error) => {
                return Err(error);
            },
        },
        None => None,
    };
    let top_p: Option<TopP> = match top_p {
        Some(p) => match TopP::new(p) {
            Ok(checked) => Some(checked),
            Err(error) => {
                return Err(error);
            },
        },
        None => None,
    };
    Ok(builder.with_temperature(temperature).with_top_k(top_k).with_top_p(top_p))
}

/// A blocking completion on its way: one request to send, one reply to
/// take.
#[derive(Debug, PartialEq, Eq)]
pub struct BlockingExecution {
    request: Request,
}

impl BlockingExecution {
    /// The one request of this execution.
    pub closed spec fn request(&self) -> Request {
        self.request
    }

    /// The request to send.
    pub fn wire_request(&self) -> (result: &Request)
        ensures
            *result == self.request(),
    {
        &self.request
    }

    /// Ends the execution with what the transport reported. A decoded
    /// completion is the result as it stands, a truncated prompt included;
    /// anything else is the error of the layer that failed.
    pub fn complete(self, reply: Reply<CompletionResult>) -> (result: Result<
        CompletionResult,
        ExecutionError,
    >)
        ensures
            result == reply.outcome(),
            (reply matches Reply::Decoded(completion) && completion.truncated_prompt) ==> (
            result matches Ok(completion) && completion.truncated_prompt),
    {
        reply.into_result()
    }
}

/// A streamed completion on its way: one request to send, then a sequence
/// of fragments to pull.
#[derive(Debug, PartialEq, Eq)]
pub struct StreamingExecution {
    request: Request,
}

impl StreamingExecution {
    /// The one request of this execution.
    pub closed spec fn request(&self) -> Request {
        self.request
    }

    /// The request to send.
    pub fn wire_request(&self) -> (result: &Request)
        ensures
            *result == self.request(),
    {
        &self.request
    }

    /// Takes what the transport reported of opening the stream: the cause
    /// where it could not be opened, nothing where it could. An open
    /// stream gives a fresh fragment sequence.
    pub fn opened(self, failure: Option<String>) -> (result: Result<
        FragmentSequence,
        ExecutionError,
    >)
        ensures
            (match failure {
                Some(cause) => result == Err::<FragmentSequence, ExecutionError>(
                    ExecutionError::Transport { cause },
                ),
                None => result is Ok && !result->Ok_0.is_terminated(),
            }),
    {
        match failure {
            Some(cause) => Err(ExecutionError::Transport { cause }),
            None => Ok(FragmentSequence::new()),
        }
    }
}

/// How likely the service finds a continuation of a context.
#[derive(Clone, Copy, Debug, PartialEq, Eq, Structural)]
pub struct LogProbabilities {
    /// Logarithm of the probability that the continuation follows.
    pub log_probability: Binary64,
    /// Whether greedy sampling would have produced the continuation.
    pub is_greedy: bool,
    /// Tokens of context and continuation together.
    pub total_tokens: usize,
}

impl LogProbabilities {
    /// Logarithm of the probability that the continuation follows.
    pub fn log_probability(&self) -> (result: Binary64)
        ensures
            result == self.log_probability,
    {
        self.log_probability
    }

    /// Whether greedy sampling would have produced the continuation.
    pub fn is_greedy(&self) -> (result: bool)
        ensures
            result == self.is_greedy,
    {
        self.is_greedy
    }

    /// Tokens of context and continuation together.
    pub fn total_tokens(&self) -> (result: usize)
        ensures
            result == self.total_tokens,
    {
        self.total_tokens
    }
}

/// What goes on the wire to ask for log probabilities. An empty context
/// stands for the end-of-text token; the continuation is never empty.
#[derive(Debug, PartialEq, Eq)]
pub struct LogProbabilitiesRequest {
    pub engine_id: String,
    pub context: String,
    pub continuation: String,
}

/// A request for log probabilities on its way: one request to send, one
/// reply to take.
#[derive(Debug, PartialEq, Eq)]
pub struct LogProbabilitiesExecution {
    request: LogProbabilitiesRequest,
}

impl LogProbabilitiesExecution {
    /// The one request of this execution.
    pub closed spec fn request(&self) -> LogProbabilitiesRequest {
        self.request
    }

    /// Asks `definition` how likely `continuation` follows `context`.
    pub fn new(definition: &EngineDefinition, context: String, continuation: NonEmptyString) -> (result:
        LogProbabilitiesExecution)
        ensures
            result.request().engine_id@ == definition.spec_id(),
            result.request().context@ == context@,
            result.request().continuation@ == continuation@,
            result.request().continuation@.len() > 0,
    {
        LogProbabilitiesExecution {
            request: LogProbabilitiesRequest {
                engine_id: definition.id().to_owned(),
                context,
                continuation: continuation.into_inner(),
            },
        }
    }

    /// The request to send.
    pub fn wire_request(&self) -> (result: &LogProbabilitiesRequest)
        ensures
            *result == self.request(),
    {
        &self.request
    }

    /// Ends the execution with what the transport reported.
    pub fn complete(self, reply: Reply<LogProbabilities>) -> (result: Result<
        LogProbabilities,
        ExecutionError,
    >)
        ensures
            result == reply.outcome(),
    {
        reply.into_result()
    }
}

} // verus!
