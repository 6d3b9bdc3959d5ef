//! Engine definitions: which hosted model a request targets and how many
//! tokens of context that model accepts.

use vstd::prelude::*;

verus! {

/// Context length, in tokens, of each preset engine.
pub const PRESET_MAX_TOKENS: usize = 2048;

/// An engine that is not among the presets, named by the caller together
/// with its context length.
#[derive(Debug, PartialEq, Eq)]
pub struct CustomEngineDefinition {
    id: String,
    max_tokens: usize,
}

impl CustomEngineDefinition {
    #[verifier::type_invariant]
    spec fn positive_capacity(self) -> bool {
        self.max_tokens > 0
    }

    /// The identifier under which the service knows the engine.
    pub closed spec fn spec_id(&self) -> Seq<char> {
        self.id@
    }

    /// The engine's context length.
    pub closed spec fn capacity(&self) -> nat {
        self.max_tokens as nat
    }

    /// Describes an engine by identifier and context length. An engine
    /// without any context is no engine: a length of 0 gives `None`.
    pub fn new(id: String, max_tokens: usize) -> (result: Option<CustomEngineDefinition>)
        ensures
            result is Some <==> max_tokens > 0,
            result is Some ==> result->0.spec_id() == id@ && result->0.capacity() == max_tokens,
    {
        if max_tokens > 0 {
            Some(CustomEngineDefinition { id, max_tokens })
        } else {
            None
        }
    }

    /// The identifier under which the service knows the engine.
    pub fn id(&self) -> (result: &str)
        ensures
            result@ == self.spec_id(),
    {
        self.id.as_str()
    }

    /// The engine's context length, which is above zero.
    pub fn max_tokens(&self) -> (result: usize)
        ensures
            result == self.capacity(),
            result > 0,
    {
        proof {
            use_type_invariant(self);
        }
        self.max_tokens
    }
}

impl Clone for CustomEngineDefinition {
    fn clone(&self) -> (result: Self)
        ensures
            result == *self,
    {
        proof {
            use_type_invariant(self);
        }
        CustomEngineDefinition { id: self.id.clone(), max_tokens: self.max_tokens }
    }
}

/// The model that a request is sent to: one of the presets, or a custom
/// engine.
#[derive(Debug, PartialEq, Eq)]
pub enum EngineDefinition {
    GptJ6B,
    Boris6B,
    FairseqGpt13B,
    Custom(CustomEngineDefinition),
}

impl EngineDefinition {
    /// The identifier under which the service knows the engine.
    pub open spec fn spec_id(&self) -> Seq<char> {
        match self {
            EngineDefinition::GptJ6B => "gptj_6B"@,
            EngineDefinition::Boris6B => "boris_6B"@,
            EngineDefinition::FairseqGpt13B => "fairseq_gpt_13B"@,
            EngineDefinition::Custom(custom) => custom.spec_id(),
        }
    }

    /// The engine's context length: the most tokens a request may ask for.
    pub open spec fn capacity(&self) -> nat {
        match self {
            EngineDefinition::Custom(custom) => custom.capacity(),
            _ => PRESET_MAX_TOKENS as nat,
        }
    }

    /// The identifier under which the service knows the engine.
    pub fn id(&self) -> (result: &str)
        ensures
            result@ == self.spec_id(),
    {
        match self {
            EngineDefinition::GptJ6B => "gptj_6B",
            EngineDefinition::Boris6B => "boris_6B",
            EngineDefinition::FairseqGpt13B => "fairseq_gpt_13B",
            EngineDefinition::Custom(custom) => custom.id(),
        }
    }

    /// The engine's context length: the most tokens a request may ask for.
    pub fn max_tokens(&self) -> (result: usize)
        ensures
            result == self.capacity(),
            result > 0,
    {
        match self {
            EngineDefinition::Custom(custom) => custom.max_tokens(),
            _ => PRESET_MAX_TOKENS,
        }
    }
}

impl Clone for EngineDefinition {
    fn clone(&self) -> (result: Self)
        ensures
            result == *self,
    {
        match self {
            EngineDefinition::GptJ6B => EngineDefinition::GptJ6B,
            EngineDefinition::Boris6B => EngineDefinition::Boris6B,
            EngineDefinition::FairseqGpt13B => EngineDefinition::FairseqGpt13B,
            EngineDefinition::Custom(custom) => EngineDefinition::Custom(custom.clone()),
        }
    }
}

} // verus!
