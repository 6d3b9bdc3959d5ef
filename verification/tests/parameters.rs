use synthtext::engine::{CustomEngineDefinition, EngineDefinition};
use synthtext::number::Binary64;
use synthtext::parameters::{MaxTokens, NonEmptyString, Stop, TopK, TopP, ValidationError};

fn number(value: f64) -> Binary64 {
    Binary64::from_bits(value.to_bits())
}

fn custom(id: &str, max_tokens: usize) -> EngineDefinition {
    EngineDefinition::Custom(CustomEngineDefinition::new(id.to_string(), max_tokens).unwrap())
}

#[test]
fn top_k_accepts_up_to_one_thousand() {
    assert_eq!(TopK::new(0).map(|k| k.inner()), Ok(0));
    assert_eq!(TopK::new(40).map(|k| k.inner()), Ok(40));
    assert_eq!(TopK::new(1000).map(|k| k.inner()), Ok(1000));
}

#[test]
fn top_k_refuses_above_one_thousand() {
    assert_eq!(TopK::new(1001), Err(ValidationError::TopKOutOfBounds { given: 1001 }));
    assert_eq!(TopK::new(u16::MAX), Err(ValidationError::TopKOutOfBounds { given: u16::MAX }));
}

#[test]
fn top_k_succeeds_exactly_within_bound() {
    for u in 0..=u16::MAX {
        assert_eq!(TopK::new(u).is_ok(), u <= 1000);
    }
}

#[test]
fn top_p_accepts_the_unit_interval() {
    for value in [0.0, -0.0, 0.5, 0.9, 1.0, f64::MIN_POSITIVE, 5e-324, 0.9999999999999999] {
        let top_p = TopP::new(number(value));
        assert_eq!(top_p.map(|p| p.inner().to_bits()), Ok(value.to_bits()));
    }
}

#[test]
fn top_p_refuses_what_lies_outside() {
    for value in [
        1.5,
        1.0000000000000002,
        2.0,
        -0.1,
        -1.0,
        -5e-324,
        f64::INFINITY,
        f64::NEG_INFINITY,
        f64::NAN,
        -f64::NAN,
        f64::MAX,
        f64::MIN,
    ] {
        assert_eq!(
            TopP::new(number(value)),
            Err(ValidationError::TopPOutOfBounds { given: number(value) })
        );
    }
}

#[test]
fn top_p_agrees_with_float_comparison() {
    let mut bits: u64 = 0x9e37_79b9_7f4a_7c15;
    for _ in 0..20000 {
        bits ^= bits << 13;
        bits ^= bits >> 7;
        bits ^= bits << 17;
        let value = f64::from_bits(bits);
        assert_eq!(TopP::new(Binary64::from_bits(bits)).is_ok(), 0.0 <= value && value <= 1.0);
    }
    for exponent in 0..0x800u64 {
        for fraction in [0u64, 1, 0x8_0000_0000_0000, 0xf_ffff_ffff_ffff] {
            for sign in [0u64, 1] {
                let bits = (sign << 63) | (exponent << 52) | fraction;
                let value = f64::from_bits(bits);
                assert_eq!(
                    Binary64::from_bits(bits).is_in_unit_interval(),
                    0.0 <= value && value <= 1.0
                );
            }
        }
    }
}

#[test]
fn max_tokens_is_bounded_by_the_engine() {
    let engine = custom("mine", 2048);
    assert_eq!(MaxTokens::new(2048, &engine).map(|m| m.inner()), Ok(2048));
    assert_eq!(MaxTokens::new(1, &engine).map(|m| m.inner()), Ok(1));
    assert_eq!(
        MaxTokens::new(2049, &engine),
        Err(ValidationError::MaxTokensOutOfBounds { given: 2049, limit: 2048 })
    );
    assert_eq!(
        MaxTokens::new(0, &engine),
        Err(ValidationError::MaxTokensOutOfBounds { given: 0, limit: 2048 })
    );
}

#[test]
fn max_tokens_depends_on_the_engine() {
    let small = custom("small", 100);
    let large = custom("large", 4096);
    assert!(MaxTokens::new(3000, &small).is_err());
    assert!(MaxTokens::new(3000, &large).is_ok());
    assert!(MaxTokens::new(3000, &EngineDefinition::GptJ6B).is_err());
    assert!(MaxTokens::new(2048, &EngineDefinition::GptJ6B).is_ok());
    assert!(MaxTokens::new(2048, &EngineDefinition::Boris6B).is_ok());
    assert!(MaxTokens::new(2049, &EngineDefinition::FairseqGpt13B).is_err());
}

#[test]
fn non_empty_string_refuses_only_the_empty_string() {
    assert_eq!(NonEmptyString::new(String::new()), Err(ValidationError::EmptyString));
    assert_eq!(NonEmptyString::new(" ".to_string()).map(|s| s.into_inner()), Ok(" ".to_string()));
    let text = NonEmptyString::new("héllo".to_string()).unwrap();
    assert_eq!(text.inner(), "héllo");
}

#[test]
fn stop_accepts_up_to_five_strings() {
    for count in 0..=5usize {
        let list: Vec<String> = (0..count).map(|i| format!("stop {i}")).collect();
        let stop = Stop::new(list.clone()).unwrap();
        assert_eq!(stop.len(), count);
        assert_eq!(stop.inner(), &list);
        assert_eq!(stop.into_inner(), list);
    }
}

#[test]
fn stop_refuses_more_than_five_strings() {
    for count in 6..10usize {
        let list: Vec<String> = (0..count).map(|_| String::new()).collect();
        assert_eq!(Stop::new(list), Err(ValidationError::TooManyStops { given: count }));
    }
}

#[test]
fn stop_does_not_look_at_the_strings() {
    let odd = vec![String::new(), "\n".to_string(), "a".repeat(10_000), "\u{1f600}".to_string()];
    assert_eq!(Stop::new(odd.clone()).map(|s| s.into_inner()), Ok(odd));
    let same = vec!["x".to_string(); 5];
    assert!(Stop::new(same).is_ok());
}

#[test]
fn validation_messages_name_the_bound_and_the_value() {
    assert_eq!(
        ValidationError::TopKOutOfBounds { given: 1001 }.message(),
        "top-k 1001 is not within 0..=1000"
    );
    assert_eq!(
        ValidationError::TopPOutOfBounds { given: number(1.5) }.message(),
        format!("top-p with the binary64 encoding {} is not within 0.0..=1.0", 1.5f64.to_bits())
    );
    assert_eq!(
        ValidationError::MaxTokensOutOfBounds { given: 2049, limit: 2048 }.message(),
        "max tokens 2049 is not within 1..=2048"
    );
    assert_eq!(ValidationError::EmptyString.message(), "the string is empty");
    assert_eq!(
        ValidationError::TooManyStops { given: 6 }.message(),
        "6 stop sequences are more than 5"
    );
}

#[test]
fn engine_definitions_know_their_identifier_and_context() {
    assert_eq!(EngineDefinition::GptJ6B.id(), "gptj_6B");
    assert_eq!(EngineDefinition::Boris6B.id(), "boris_6B");
    assert_eq!(EngineDefinition::FairseqGpt13B.id(), "fairseq_gpt_13B");
    assert_eq!(EngineDefinition::GptJ6B.max_tokens(), 2048);
    assert_eq!(EngineDefinition::Boris6B.max_tokens(), 2048);
    assert_eq!(EngineDefinition::FairseqGpt13B.max_tokens(), 2048);
    let engine = custom("mine", 77);
    assert_eq!(engine.id(), "mine");
    assert_eq!(engine.max_tokens(), 77);
    assert_eq!(engine.clone(), engine);
}

#[test]
fn custom_engine_needs_a_context() {
    assert_eq!(CustomEngineDefinition::new("mine".to_string(), 0), None);
    let engine = CustomEngineDefinition::new(String::new(), usize::MAX).unwrap();
    assert_eq!(engine.id(), "");
    assert_eq!(engine.max_tokens(), usize::MAX);
}

#[test]
fn a_number_is_carried_by_its_encoding() {
    for value in [0.0, 1.0, -2.5, 0.1, f64::INFINITY] {
        let carried = number(value);
        assert_eq!(carried.bits, value.to_bits());
        assert_eq!(f64::from_bits(carried.to_bits()), value);
    }
    assert_eq!(number(1.0).to_bits(), synthtext::number::ONE_BITS);
    assert_eq!(number(-0.0).to_bits(), synthtext::number::NEGATIVE_ZERO_BITS);
    assert_eq!(synthtext::number::HIDDEN_BIT, 1 << 52);
    assert_eq!(synthtext::parameters::TOP_K_MAX, 1000);
    assert_eq!(synthtext::parameters::STOP_MAX, 5);
    assert_eq!(synthtext::engine::PRESET_MAX_TOKENS, 2048);
}
