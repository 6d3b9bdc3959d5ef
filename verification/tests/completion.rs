use synthtext::completion::{
    build_request, BlockingExecution, CompletionFragment, CompletionResult, ExecutionError,
    LogProbabilities, LogProbabilitiesExecution, Reply, Request, StreamSummary,
    TextCompletionBuilder,
};
use synthtext::engine::{CustomEngineDefinition, EngineDefinition};
use synthtext::number::Binary64;
use synthtext::parameters::{NonEmptyString, Stop, TopK, TopP, ValidationError};

fn number(value: f64) -> Binary64 {
    Binary64::from_bits(value.to_bits())
}

fn custom(id: &str, max_tokens: usize) -> EngineDefinition {
    EngineDefinition::Custom(CustomEngineDefinition::new(id.to_string(), max_tokens).unwrap())
}

/// A transport that only counts how often it is asked.
struct CountingTransport {
    sent: usize,
}

impl CountingTransport {
    fn send(&mut self, _request: &Request) -> Reply<CompletionResult> {
        self.sent += 1;
        Reply::Decoded(CompletionResult {
            text: " world".to_string(),
            truncated_prompt: false,
            total_tokens: Some(3),
        })
    }
}

#[test]
fn a_new_builder_sets_no_sampling_parameter() {
    let builder = TextCompletionBuilder::new(EngineDefinition::GptJ6B, "Hello".to_string());
    let execution = builder.execute_now(None);
    assert_eq!(
        execution.wire_request(),
        &Request {
            engine_id: "gptj_6B".to_string(),
            prompt: "Hello".to_string(),
            max_tokens: None,
            temperature: None,
            top_k: None,
            top_p: None,
            stop: None,
            stream: false,
        }
    );
}

#[test]
fn the_wire_request_carries_what_was_set() {
    let stop = Stop::new(vec!["\n".to_string(), "END".to_string()]).unwrap();
    let execution = TextCompletionBuilder::new(custom("mine", 512), "Once".to_string())
        .with_max_tokens(Some(512))
        .unwrap()
        .with_temperature(Some(number(0.7)))
        .with_top_k(Some(TopK::new(40).unwrap()))
        .with_top_p(Some(TopP::new(number(0.9)).unwrap()))
        .execute_now(Some(stop));
    assert_eq!(
        execution.wire_request(),
        &Request {
            engine_id: "mine".to_string(),
            prompt: "Once".to_string(),
            max_tokens: Some(512),
            temperature: Some(number(0.7)),
            top_k: Some(40),
            top_p: Some(number(0.9)),
            stop: Some(vec!["\n".to_string(), "END".to_string()]),
            stream: false,
        }
    );
}

#[test]
fn a_streamed_request_asks_for_a_stream() {
    let execution = TextCompletionBuilder::new(EngineDefinition::Boris6B, "Il".to_string())
        .with_top_k(Some(TopK::new(5).unwrap()))
        .execute_stream(Some(Stop::new(vec![".".to_string()]).unwrap()));
    let request = execution.wire_request();
    assert!(request.stream);
    assert_eq!(request.engine_id, "boris_6B");
    assert_eq!(request.top_k, Some(5));
    assert_eq!(request.stop, Some(vec![".".to_string()]));
    assert_eq!(request.max_tokens, None);
}

#[test]
fn setting_a_parameter_again_replaces_or_clears_it() {
    let execution = TextCompletionBuilder::new(EngineDefinition::GptJ6B, String::new())
        .with_max_tokens(Some(10))
        .unwrap()
        .with_max_tokens(Some(20))
        .unwrap()
        .with_top_k(Some(TopK::new(1).unwrap()))
        .with_top_k(None)
        .with_temperature(Some(number(2.0)))
        .with_temperature(None)
        .execute_now(None);
    let request = execution.wire_request();
    assert_eq!(request.max_tokens, Some(20));
    assert_eq!(request.top_k, None);
    assert_eq!(request.temperature, None);
}

#[test]
fn max_tokens_is_checked_against_the_builders_engine() {
    let builder = TextCompletionBuilder::new(custom("mine", 2048), "p".to_string());
    assert!(builder.with_max_tokens(Some(2048)).is_ok());
    let builder = TextCompletionBuilder::new(custom("mine", 2048), "p".to_string());
    assert_eq!(
        builder.with_max_tokens(Some(2049)),
        Err(ValidationError::MaxTokensOutOfBounds { given: 2049, limit: 2048 })
    );
    let builder = TextCompletionBuilder::new(custom("mine", 4096), "p".to_string());
    assert!(builder.with_max_tokens(Some(2049)).is_ok());
    let builder = TextCompletionBuilder::new(custom("mine", 4096), "p".to_string());
    assert_eq!(
        builder.with_max_tokens(Some(0)),
        Err(ValidationError::MaxTokensOutOfBounds { given: 0, limit: 4096 })
    );
}

#[test]
fn build_request_checks_every_raw_value() {
    let request = build_request(
        EngineDefinition::GptJ6B,
        "Hello".to_string(),
        Some(100),
        Some(number(1.2)),
        Some(40),
        Some(number(0.9)),
    )
    .unwrap()
    .execute_now(None);
    assert_eq!(
        request.wire_request(),
        &Request {
            engine_id: "gptj_6B".to_string(),
            prompt: "Hello".to_string(),
            max_tokens: Some(100),
            temperature: Some(number(1.2)),
            top_k: Some(40),
            top_p: Some(number(0.9)),
            stop: None,
            stream: false,
        }
    );
    assert!(build_request(EngineDefinition::GptJ6B, String::new(), None, None, None, None).is_ok());
}

#[test]
fn build_request_reports_the_first_violation() {
    let engine = || custom("mine", 10);
    assert_eq!(
        build_request(engine(), String::new(), Some(11), None, Some(1001), Some(number(1.5))),
        Err(ValidationError::MaxTokensOutOfBounds { given: 11, limit: 10 })
    );
    assert_eq!(
        build_request(engine(), String::new(), Some(10), None, Some(1001), Some(number(1.5))),
        Err(ValidationError::TopKOutOfBounds { given: 1001 })
    );
    assert_eq!(
        build_request(engine(), String::new(), None, None, Some(1000), Some(number(-0.5))),
        Err(ValidationError::TopPOutOfBounds { given: number(-0.5) })
    );
}

#[test]
fn a_request_out_of_bounds_never_reaches_the_transport() {
    let mut transport = CountingTransport { sent: 0 };
    let built = build_request(
        EngineDefinition::GptJ6B,
        "Hello".to_string(),
        None,
        None,
        None,
        Some(number(1.5)),
    );
    assert_eq!(built, Err(ValidationError::TopPOutOfBounds { given: number(1.5) }));
    if let Ok(builder) = built {
        let execution = builder.execute_now(None);
        let reply = transport.send(execution.wire_request());
        let _ = execution.complete(reply);
    }
    assert_eq!(transport.sent, 0);
}

#[test]
fn a_request_within_bounds_is_sent_once() {
    let mut transport = CountingTransport { sent: 0 };
    let built = build_request(
        EngineDefinition::GptJ6B,
        "Hello".to_string(),
        None,
        None,
        None,
        Some(number(1.0)),
    );
    let execution: BlockingExecution = built.unwrap().execute_now(None);
    let reply = transport.send(execution.wire_request());
    let result = execution.complete(reply).unwrap();
    assert_eq!(transport.sent, 1);
    assert_eq!(result.text(), " world");
    assert_eq!(result.total_tokens(), Some(3));
    assert!(!result.truncated_prompt());
}

#[test]
fn a_truncated_prompt_is_a_result_and_no_error() {
    let engine = custom("tiny", 4);
    let prompt = "far more words than four tokens can hold".to_string();
    let execution = TextCompletionBuilder::new(engine, prompt).execute_now(None);
    let reply = Reply::Decoded(CompletionResult {
        text: " and".to_string(),
        truncated_prompt: true,
        total_tokens: None,
    });
    let result = execution.complete(reply);
    assert_eq!(
        result,
        Ok(CompletionResult {
            text: " and".to_string(),
            truncated_prompt: true,
            total_tokens: None
        })
    );
    assert!(result.unwrap().truncated_prompt());
}

#[test]
fn each_layer_of_failure_has_its_own_error() {
    let execution = || TextCompletionBuilder::new(EngineDefinition::GptJ6B, String::new()).execute_now(None);
    let transport = execution().complete(Reply::TransportFailed { cause: "timed out".to_string() });
    assert_eq!(transport, Err(ExecutionError::Transport { cause: "timed out".to_string() }));
    let api = execution()
        .complete(Reply::ApiFailed { status: 401, message: "invalid API key".to_string() });
    assert_eq!(
        api,
        Err(ExecutionError::Api { status: 401, message: "invalid API key".to_string() })
    );
    let decode = execution().complete(Reply::Undecodable { cause: "EOF at line 1".to_string() });
    assert_eq!(decode, Err(ExecutionError::Decode { cause: "EOF at line 1".to_string() }));
    assert!(transport.unwrap_err().is_retryable());
    assert!(!api.as_ref().unwrap_err().is_retryable());
    assert!(api.unwrap_err().is_api());
    assert!(!decode.as_ref().unwrap_err().is_retryable());
    assert!(!decode.unwrap_err().is_api());
}

#[test]
fn a_reply_folds_into_one_result() {
    assert_eq!(Reply::Decoded(7u8).into_result(), Ok(7));
    assert_eq!(
        Reply::<u8>::TransportFailed { cause: "reset".to_string() }.into_result(),
        Err(ExecutionError::Transport { cause: "reset".to_string() })
    );
}

#[test]
fn an_unopened_stream_is_a_transport_error() {
    let execution = TextCompletionBuilder::new(EngineDefinition::GptJ6B, String::new()).execute_stream(None);
    assert_eq!(
        execution.opened(Some("unreachable".to_string())),
        Err(ExecutionError::Transport { cause: "unreachable".to_string() })
    );
    let execution = TextCompletionBuilder::new(EngineDefinition::GptJ6B, String::new()).execute_stream(None);
    let sequence = execution.opened(None).unwrap();
    assert!(sequence.wants_pull());
}

#[test]
fn fragments_know_whether_they_are_last() {
    let middle = CompletionFragment { text: "a".to_string(), summary: None };
    let last = CompletionFragment {
        text: String::new(),
        summary: Some(StreamSummary { truncated_prompt: false, total_tokens: Some(12) }),
    };
    assert_eq!(middle.text(), "a");
    assert!(!middle.is_last());
    assert!(last.is_last());
}

#[test]
fn log_probabilities_are_asked_for_and_taken() {
    let continuation = NonEmptyString::new(" yes".to_string()).unwrap();
    let execution = LogProbabilitiesExecution::new(
        &EngineDefinition::FairseqGpt13B,
        "Is it so?".to_string(),
        continuation,
    );
    assert_eq!(execution.wire_request().engine_id, "fairseq_gpt_13B");
    assert_eq!(execution.wire_request().context, "Is it so?");
    assert_eq!(execution.wire_request().continuation, " yes");
    let found = LogProbabilities {
        log_probability: number(-0.25),
        is_greedy: true,
        total_tokens: 5,
    };
    let result = execution.complete(Reply::Decoded(found)).unwrap();
    assert_eq!(result.log_probability(), number(-0.25));
    assert!(result.is_greedy());
    assert_eq!(result.total_tokens(), 5);
}
