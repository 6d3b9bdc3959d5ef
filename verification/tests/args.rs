use owo_colors::OwoColorize;
use synthtext::args::{
    ArgumentError, EngineDefinitionFromStrAdapter, NonEmptyStringFromStrAdapter,
    TopKFromStrAdapter, TopPFromStrAdapter,
};
use synthtext::engine::{CustomEngineDefinition, EngineDefinition};
use synthtext::number::Binary64;

fn parsed(text: &str) -> Option<Binary64> {
    text.parse::<f64>().ok().map(|value| Binary64::from_bits(value.to_bits()))
}

#[test]
fn non_empty_string_adapter_refuses_the_empty_string() {
    assert_eq!(NonEmptyStringFromStrAdapter::from_str(""), Err(ArgumentError::EmptyString));
    let adapter = NonEmptyStringFromStrAdapter::from_str("yes").unwrap();
    assert_eq!(adapter.0.inner(), "yes");
}

#[test]
fn top_k_adapter_reads_and_checks() {
    assert_eq!(TopKFromStrAdapter::from_str("0").map(|a| a.0.inner()), Ok(0));
    assert_eq!(TopKFromStrAdapter::from_str("1000").map(|a| a.0.inner()), Ok(1000));
    assert_eq!(TopKFromStrAdapter::from_str("+7").map(|a| a.0.inner()), Ok(7));
    assert_eq!(TopKFromStrAdapter::from_str("0040").map(|a| a.0.inner()), Ok(40));
}

#[test]
fn top_k_adapter_calls_every_number_beyond_the_bound_out_of_bounds() {
    for text in [
        "1001",
        "65535",
        "65536",
        "70000",
        "+1001",
        "18446744073709551615",
        "18446744073709551616",
        "340282366920938463463374607431768211456",
        "00000000000000000000000000000000000000001001",
        "-1",
        "-1000",
        "-70000",
        "-99999999999999999999999999999999999999",
    ] {
        assert_eq!(
            TopKFromStrAdapter::from_str(text),
            Err(ArgumentError::TopKOutOfBounds { given: text.to_string() }),
            "{text:?}"
        );
    }
    let error = TopKFromStrAdapter::from_str("70000").unwrap_err();
    assert_eq!(
        error.message(),
        format!("the number {} wasn't in the required bound of 0..=1000", "70000".bold())
    );
}

#[test]
fn top_k_adapter_takes_zero_with_either_sign() {
    assert_eq!(TopKFromStrAdapter::from_str("-0").map(|a| a.0.inner()), Ok(0));
    assert_eq!(TopKFromStrAdapter::from_str("+0").map(|a| a.0.inner()), Ok(0));
    assert_eq!(TopKFromStrAdapter::from_str("-000").map(|a| a.0.inner()), Ok(0));
}

#[test]
fn top_k_adapter_calls_what_is_no_integer_no_number() {
    for text in
        ["", "+", "-", "ten", "1 000", " 10", "10 ", "1_0", "1.0", "1e2", "0x10", "+-1", "--1", "1-", "１０"]
    {
        assert_eq!(
            TopKFromStrAdapter::from_str(text),
            Err(ArgumentError::InvalidNumber { given: text.to_string() }),
            "{text:?}"
        );
    }
}

#[test]
fn top_k_adapter_agrees_with_the_bound_on_every_small_integer() {
    for n in -2000i64..=70000 {
        let outcome = TopKFromStrAdapter::from_str(&n.to_string());
        if (0..=1000).contains(&n) {
            assert_eq!(outcome.map(|a| i64::from(a.0.inner())), Ok(n));
        } else {
            assert_eq!(outcome, Err(ArgumentError::TopKOutOfBounds { given: n.to_string() }));
        }
    }
}

#[test]
fn top_p_adapter_checks_what_was_read() {
    assert_eq!(
        TopPFromStrAdapter::from_str("0.9", parsed("0.9")).map(|a| a.0.inner().to_bits()),
        Ok(0.9f64.to_bits())
    );
    assert!(TopPFromStrAdapter::from_str("1", parsed("1")).is_ok());
    assert!(TopPFromStrAdapter::from_str("0", parsed("0")).is_ok());
    assert_eq!(
        TopPFromStrAdapter::from_str("1.5", parsed("1.5")),
        Err(ArgumentError::TopPOutOfBounds { given: "1.5".to_string() })
    );
    assert_eq!(
        TopPFromStrAdapter::from_str("NaN", parsed("NaN")),
        Err(ArgumentError::TopPOutOfBounds { given: "NaN".to_string() })
    );
    assert_eq!(
        TopPFromStrAdapter::from_str("half", parsed("half")),
        Err(ArgumentError::InvalidFloat { given: "half".to_string() })
    );
}

#[test]
fn engine_definition_adapter_reads_presets() {
    assert_eq!(
        EngineDefinitionFromStrAdapter::from_str("gpt6jb").map(|a| a.0),
        Ok(EngineDefinition::GptJ6B)
    );
    assert_eq!(
        EngineDefinitionFromStrAdapter::from_str("boris6b").map(|a| a.0),
        Ok(EngineDefinition::Boris6B)
    );
    assert_eq!(
        EngineDefinitionFromStrAdapter::from_str("fairseqgpt13b").map(|a| a.0),
        Ok(EngineDefinition::FairseqGpt13B)
    );
}

#[test]
fn engine_definition_adapter_reads_custom_engines() {
    let custom = |id: &str, max_tokens: usize| {
        EngineDefinition::Custom(CustomEngineDefinition::new(id.to_string(), max_tokens).unwrap())
    };
    assert_eq!(
        EngineDefinitionFromStrAdapter::from_str("mine,4096").map(|a| a.0),
        Ok(custom("mine", 4096))
    );
    assert_eq!(
        EngineDefinitionFromStrAdapter::from_str("gpt6jb,100").map(|a| a.0),
        Ok(custom("gpt6jb", 100))
    );
    assert_eq!(EngineDefinitionFromStrAdapter::from_str(",1").map(|a| a.0), Ok(custom("", 1)));
    assert_eq!(
        EngineDefinitionFromStrAdapter::from_str("my engine,+12").map(|a| a.0),
        Ok(custom("my engine", 12))
    );
}

#[test]
fn engine_definition_adapter_refuses_the_rest() {
    for text in ["", "gptj_6B", "gpt6jb ", "GPT6JB", "mine", "boris"] {
        assert_eq!(
            EngineDefinitionFromStrAdapter::from_str(text),
            Err(ArgumentError::MissingDelimiter),
            "{text:?}"
        );
    }
    for text in ["mine,", "mine,many", "mine,1,2", "mine, 5", "mine,-5", "a,b,c", ","] {
        assert_eq!(
            EngineDefinitionFromStrAdapter::from_str(text),
            Err(ArgumentError::InvalidMaxTokens),
            "{text:?}"
        );
    }
    assert_eq!(
        EngineDefinitionFromStrAdapter::from_str("mine,340282366920938463463374607431768211456"),
        Err(ArgumentError::InvalidMaxTokens)
    );
    assert_eq!(
        EngineDefinitionFromStrAdapter::from_str("mine,0"),
        Err(ArgumentError::ZeroMaxTokens)
    );
    assert_eq!(
        EngineDefinitionFromStrAdapter::from_str("mine,000"),
        Err(ArgumentError::ZeroMaxTokens)
    );
}

#[test]
fn argument_messages_show_the_text_in_bold() {
    assert_eq!(ArgumentError::EmptyString.message(), "given string was empty");
    assert_eq!(
        ArgumentError::InvalidNumber { given: "ten".to_string() }.message(),
        format!("the given string {} wasn't a valid number", "ten".bold())
    );
    assert_eq!(
        ArgumentError::InvalidNumber { given: "ten".to_string() }.message(),
        "the given string \u{1b}[1mten\u{1b}[0m wasn't a valid number"
    );
    assert_eq!(
        ArgumentError::TopKOutOfBounds { given: "1001".to_string() }.message(),
        format!("the number {} wasn't in the required bound of 0..=1000", "1001".bold())
    );
    assert_eq!(
        ArgumentError::InvalidFloat { given: "half".to_string() }.message(),
        format!("the given string {} wasn't a valid float", "half".bold())
    );
    assert_eq!(
        ArgumentError::TopPOutOfBounds { given: "1.5".to_string() }.message(),
        format!("the number {} wasn't in the required bound of 0.0..=1.0", "1.5".bold())
    );
    assert_eq!(ArgumentError::InvalidMaxTokens.message(), "max tokens must be a valid number");
    assert_eq!(ArgumentError::ZeroMaxTokens.message(), "max tokens must be above zero");
    assert_eq!(
        ArgumentError::MissingDelimiter.message(),
        format!("expected delimiter {} to separate id and max tokens", ','.bold())
    );
}
