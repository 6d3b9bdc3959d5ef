//! Self-validating sampling parameters.
//!
//! Each type wraps a raw value and can only be built through a constructor
//! that checks the value's bound, so that a request is known to be within
//! bounds before anything is sent.

use crate::engine::EngineDefinition;
use crate::number::{in_unit_interval, Binary64};
use crate::text::{append_decimal, decimal};
use vstd::prelude::*;
use vstd::string::*;

verus! {

/// Largest candidate count that the service accepts for top-k sampling.
pub const TOP_K_MAX: u16 = 1000;

/// Largest number of stop sequences that one request may carry.
pub const STOP_MAX: usize = 5;

/// A raw value that one of the bounded parameters refused.
#[allow(inconsistent_fields)]
#[derive(Debug, PartialEq, Eq)]
pub enum ValidationError {
    /// A candidate count above [`TOP_K_MAX`].
    TopKOutOfBounds { given: u16 },
    /// A probability threshold that is not within zero and one.
    TopPOutOfBounds { given: Binary64 },
    /// A generation length of zero, or above the engine's context length.
    MaxTokensOutOfBounds { given: usize, limit: usize },
    /// An empty string where text is required.
    EmptyString,
    /// More stop sequences than [`STOP_MAX`].
    TooManyStops { given: usize },
}

impl ValidationError {
    /// The text of [`ValidationError::message`].
    pub open spec fn spec_message(&self) -> Seq<char> {
        match self {
            ValidationError::TopKOutOfBounds { given } => "top-k "@ + decimal(*given as nat)
                + " is not within 0..=1000"@,
            ValidationError::TopPOutOfBounds { given } => "top-p with the binary64 encoding "@
                + decimal(given.bits as nat) + " is not within 0.0..=1.0"@,
            ValidationError::MaxTokensOutOfBounds { given, limit } => "max tokens "@ + decimal(
                *given as nat,
            ) + " is not within 1..="@ + decimal(*limit as nat),
            ValidationError::EmptyString => "the string is empty"@,
            ValidationError::TooManyStops { given } => decimal(*given as nat)
                + " stop sequences are more than 5"@,
        }
    }

    /// Says which bound was violated, and by which value.
    pub fn message(&self) -> (result: String)
        ensures
            result@ == self.spec_message(),
    {
        let mut out = String::new();
        match self {
            ValidationError::TopKOutOfBounds { given } => {
                out.append("top-k ");
                append_decimal(&mut out, *given as u64);
                out.append(" is not within 0..=1000");
            },
            ValidationError::TopPOutOfBounds { given } => {
                out.append("top-p with the binary64 encoding ");
                append_decimal(&mut out, given.bits);
                out.append(" is not within 0.0..=1.0");
            },
            ValidationError::MaxTokensOutOfBounds { given, limit } => {
                out.append("max tokens ");
                append_decimal(&mut out, *given as u64);
                out.append(" is not within 1..=");
                append_decimal(&mut out, *limit as u64);
            },
            ValidationError::EmptyString => {
                out.append("the string is empty");
            },
            ValidationError::TooManyStops { given } => {
                append_decimal(&mut out, *given as u64);
                out.append(" stop sequences are more than 5");
            },
        }
        assert(out@ =~= self.spec_message());
        out
    }
}

/// Number of most likely tokens among which the next token is sampled.
#[derive(Clone, Copy, Debug, PartialEq, Eq, Structural)]
pub struct TopK {
    value: u16,
}

impl TopK {
    /// The wrapped count.
    pub closed spec fn view(&self) -> nat {
        self.value as nat
    }

    #[verifier::type_invariant]
    spec fn bounded(self) -> bool {
        self.value <= TOP_K_MAX
    }

    /// Accepts a count of at most [`TOP_K_MAX`].
    pub fn new(top_k: u16) -> (result: Result<TopK, ValidationError>)
        ensures
            result is Ok <==> top_k <= TOP_K_MAX,
            result is Ok ==> result->Ok_0@ == top_k,
            result is Err ==> result->Err_0 == (ValidationError::TopKOutOfBounds { given: top_k }),
    {
        if top_k <= TOP_K_MAX {
            Ok(TopK { value: top_k })
        } else {
            Err(ValidationError::TopKOutOfBounds { given: top_k })
        }
    }

    /// The wrapped count.
    pub fn inner(&self) -> (result: u16)
        ensures
            result == self@,
            result <= TOP_K_MAX,
    {
        proof {
            use_type_invariant(self);
        }
        self.value
    }
}

/// Cumulative probability at which the candidates for the next token are
/// cut off.
#[derive(Clone, Copy, Debug, PartialEq, Eq, Structural)]
pub struct TopP {
    value: Binary64,
}

impl TopP {
    /// The wrapped threshold.
    pub closed spec fn view(&self) -> Binary64 {
        self.value
    }

    #[verifier::type_invariant]
    spec fn bounded(self) -> bool {
        in_unit_interval(self.value.bits)
    }

    /// Accepts a threshold between zero and one, both included.
    pub fn new(top_p: Binary64) -> (result: Result<TopP, ValidationError>)
        ensures
            result is Ok <==> in_unit_interval(top_p.bits),
            result is Ok ==> result->Ok_0@ == top_p,
            result is Err ==> result->Err_0 == (ValidationError::TopPOutOfBounds { given: top_p }),
    {
        if top_p.is_in_unit_interval() {
            Ok(TopP { value: top_p })
        } else {
            Err(ValidationError::TopPOutOfBounds { given: top_p })
        }
    }

    /// The wrapped threshold.
    pub fn inner(&self) -> (result: Binary64)
        ensures
            result == self@,
            in_unit_interval(result.bits),
    {
        proof {
            use_type_invariant(self);
        }
        self.value
    }
}

/// Number of tokens to generate, checked against one engine's context
/// length.
#[derive(Clone, Copy, Debug, PartialEq, Eq, Structural)]
pub struct MaxTokens {
    value: usize,
}

impl MaxTokens {
    /// The wrapped length.
    pub closed spec fn view(&self) -> nat {
        self.value as nat
    }

    #[verifier::type_invariant]
    spec fn positive(self) -> bool {
        self.value >= 1
    }

    /// Accepts a length from one up to the context length of
    /// `engine_definition`. The same length may fit one engine and not
    /// another.
    pub fn new(max_tokens: usize, engine_definition: &EngineDefinition) -> (result: Result<
        MaxTokens,
        ValidationError,
    >)
        ensures
            result is Ok <==> 1 <= max_tokens <= engine_definition.capacity(),
            result is Ok ==> result->Ok_0@ == max_tokens,
            result is Err ==> result->Err_0 == (ValidationError::MaxTokensOutOfBounds {
                given: max_tokens,
                limit: engine_definition.capacity() as usize,
            }),
    {
        let limit: usize = engine_definition.max_tokens();
        if 1 <= max_tokens && max_tokens <= limit {
            Ok(MaxTokens { value: max_tokens })
        } else {
            Err(ValidationError::MaxTokensOutOfBounds { given: max_tokens, limit })
        }
    }

    /// The wrapped length.
    pub fn inner(&self) -> (result: usize)
        ensures
            result == self@,
            result >= 1,
    {
        proof {
            use_type_invariant(self);
        }
        self.value
    }
}

/// A string that holds at least one character.
#[derive(Debug, PartialEq, Eq)]
pub struct NonEmptyString {
    value: String,
}

impl NonEmptyString {
    /// The wrapped text.
    pub closed spec fn view(&self) -> Seq<char> {
        self.value@
    }

    #[verifier::type_invariant]
    spec fn non_empty(self) -> bool {
        self.value@.len() > 0
    }

    /// Accepts any string but the empty one.
    pub fn new(string: String) -> (result: Result<NonEmptyString, ValidationError>)
        ensures
            result is Ok <==> string@.len() > 0,
            result is Ok ==> result->Ok_0@ == string@,
            result is Err ==> result->Err_0 == ValidationError::EmptyString,
    {
        if string.as_str().is_empty() {
            Err(ValidationError::EmptyString)
        } else {
            Ok(NonEmptyString { value: string })
        }
    }

    /// The wrapped text.
    pub fn inner(&self) -> (result: &str)
        ensures
            result@ == self@,
            result@.len() > 0,
    {
        proof {
            use_type_invariant(self);
        }
        self.value.as_str()
    }

    /// The wrapped text.
    pub fn into_inner(self) -> (result: String)
        ensures
            result@ == self@,
            result@.len() > 0,
    {
        proof {
            use_type_invariant(&self);
        }
        self.value
    }
}

/// The text of each string of a list, in order.
pub open spec fn texts(strings: Seq<String>) -> Seq<Seq<char>> {
    Seq::new(strings.len(), |i: int| strings[i]@)
}

/// Strings at whose first occurrence the generation halts. The occurrence
/// itself is not part of the output.
#[derive(Debug, PartialEq, Eq)]
pub struct Stop {
    sequences: Vec<String>,
}

impl Stop {
    /// The stop sequences, in the order given.
    pub closed spec fn view(&self) -> Seq<Seq<char>> {
        texts(self.sequences@)
    }

    #[verifier::type_invariant]
    spec fn bounded(self) -> bool {
        self.sequences@.len() <= STOP_MAX
    }

    /// Accepts up to [`STOP_MAX`] strings, whatever they hold.
    pub fn new(sequences: Vec<String>) -> (result: Result<Stop, ValidationError>)
        ensures
            result is Ok <==> sequences@.len() <= STOP_MAX,
            result is Ok ==> result->Ok_0@ == texts(sequences@),
            result is Err ==> result->Err_0 == (ValidationError::TooManyStops {
                given: sequences@.len() as usize,
            }),
    {
        let given: usize = sequences.len();
        if given <= STOP_MAX {
            Ok(Stop { sequences })
        } else {
            Err(ValidationError::TooManyStops { given })
        }
    }

    /// The stop sequences, in the order given.
    pub fn inner(&self) -> (result: &Vec<String>)
        ensures
            texts(result@) == self@,
            result@.len() <= STOP_MAX,
    {
        proof {
            use_type_invariant(self);
        }
        &self.sequences
    }

    /// The stop sequences, in the order given.
    pub fn into_inner(self) -> (result: Vec<String>)
        ensures
            texts(result@) == self@,
            result@.len() <= STOP_MAX,
    {
        proof {
            use_type_invariant(&self);
        }
        self.sequences
    }

    /// The number of stop sequences.
    pub fn len(&self) -> (result: usize)
        ensures
            result == self@.len(),
            result <= STOP_MAX,
    {
        proof {
            use_type_invariant(self);
        }
        self.sequences.len()
    }
}

} // verus!
