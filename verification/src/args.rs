//! Command-line values: how the text of an argument becomes a bounded
//! parameter or an engine definition, and what the subcommands carry.

use crate::engine::{CustomEngineDefinition, EngineDefinition};
use crate::number::{in_unit_interval, Binary64};
use crate::parameters::{NonEmptyString, TopK, TopP, TOP_K_MAX};
use crate::style::{bold, bold_text};
use crate::text::{
    integer_value, is_integer, parse_unsigned, parse_unsigned_spec, read_integer, same_text,
    split_once, split_once_spec, Reading,
};
use vstd::prelude::*;
use vstd::string::*;

verus! {

/// Why the text of an argument was refused.
#[allow(inconsistent_fields)]
#[derive(Debug, PartialEq, Eq)]
pub enum ArgumentError {
    /// Text was required and none was given.
    EmptyString,
    /// The text is no decimal integer.
    InvalidNumber { given: String },
    /// The text is an integer outside the bound for top-k.
    TopKOutOfBounds { given: String },
    /// The text is no decimal fraction.
    InvalidFloat { given: String },
    /// The text is a number outside zero to one.
    TopPOutOfBounds { given: String },
    /// What follows the comma of an engine definition is no number.
    InvalidMaxTokens,
    /// The context length of a custom engine is zero.
    ZeroMaxTokens,
    /// The text names no preset and holds no comma.
    MissingDelimiter,
}

impl ArgumentError {
    /// The text of [`ArgumentError::message`].
    pub open spec fn spec_message(&self) -> Seq<char> {
        match self {
            ArgumentError::EmptyString => "given string was empty"@,
            ArgumentError::InvalidNumber { given } => "the given string "@ + bold_text(given@)
                + " wasn't a valid number"@,
            ArgumentError::TopKOutOfBounds { given } => "the number "@ + bold_text(given@)
                + " wasn't in the required bound of 0..=1000"@,
            ArgumentError::InvalidFloat { given } => "the given string "@ + bold_text(given@)
                + " wasn't a valid float"@,
            ArgumentError::TopPOutOfBounds { given } => "the number "@ + bold_text(given@)
                + " wasn't in the required bound of 0.0..=1.0"@,
            ArgumentError::InvalidMaxTokens => "max tokens must be a valid number"@,
            ArgumentError::ZeroMaxTokens => "max tokens must be above zero"@,
            ArgumentError::MissingDelimiter => "expected delimiter "@ + bold_text(","@)
                + " to separate id and max tokens"@,
        }
    }

    /// What to tell the user, with the offending text in bold.
    pub fn message(&self) -> (result: String)
        ensures
            result@ == self.spec_message(),
    {
        let mut out = String::new();
        match self {
            ArgumentError::EmptyString => {
                out.append("given string was empty");
            },
            ArgumentError::InvalidNumber { given } => {
                out.append("the given string ");
                out.append(bold(given.as_str()).as_str());
                out.append(" wasn't a valid number");
            },
            ArgumentError::TopKOutOfBounds { given } => {
                out.append("the number ");
                out.append(bold(given.as_str()).as_str());
                out.append(" wasn't in the required bound of 0..=1000");
            },
            ArgumentError::InvalidFloat { given } => {
                out.append("the given string ");
                out.append(bold(given.as_str()).as_str());
                out.append(" wasn't a valid float");
            },
            ArgumentError::TopPOutOfBounds { given } => {
                out.append("the number ");
                out.append(bold(given.as_str()).as_str());
                out.append(" wasn't in the required bound of 0.0..=1.0");
            },
            ArgumentError::InvalidMaxTokens => {
                out.append("max tokens must be a valid number");
            },
            ArgumentError::ZeroMaxTokens => {
                out.append("max tokens must be above zero");
            },
            ArgumentError::MissingDelimiter => {
                out.append("expected delimiter ");
                out.append(bold(",").as_str());
                out.append(" to separate id and max tokens");
            },
        }
        assert(out@ =~= self.spec_message());
        out
    }
}

/// A required, non-empty argument.
#[derive(Debug, PartialEq, Eq)]
pub struct NonEmptyStringFromStrAdapter(pub NonEmptyString);

impl NonEmptyStringFromStrAdapter {
    /// Accepts any text but the empty one.
    pub fn from_str(s: &str) -> (result: Result<NonEmptyStringFromStrAdapter, ArgumentError>)
        ensures
            result is Ok <==> s@.len() > 0,
            result matches Ok(adapter) ==> adapter.0@ == s@,
            result matches Err(error) ==> error == ArgumentError::EmptyString,
    {
        match NonEmptyString::new(s.to_owned()) {
            Ok(string) => Ok(NonEmptyStringFromStrAdapter(string)),
            Err(_) => Err(ArgumentError::EmptyString),
        }
    }
}

/// The top-k argument.
#[derive(Clone, Copy, Debug, PartialEq, Eq)]
pub struct TopKFromStrAdapter(pub TopK);

impl TopKFromStrAdapter {
    /// Reads a decimal integer and accepts it from zero up to the limit
    /// for top-k.
    ///
    /// A text that is no integer literal is no number. Every integer
    /// literal is a number, however many digits it has and whatever its
    /// sign: it is accepted within the bound, `-0` among them, and is out
    /// of bounds otherwise.
    pub fn from_str(s: &str) -> (result: Result<TopKFromStrAdapter, ArgumentError>)
        ensures
            !is_integer(s@) ==> (result matches Err(ArgumentError::InvalidNumber { given })
                && given@ == s@),
            is_integer(s@) && 0 <= integer_value(s@) <= TOP_K_MAX ==> (result matches Ok(adapter)
                && adapter.0@ == integer_value(s@)),
            is_integer(s@) && !(0 <= integer_value(s@) <= TOP_K_MAX) ==> (
            result matches Err(ArgumentError::TopKOutOfBounds { given }) && given@ == s@),
    {
        match read_integer(s, 1000) {
            Reading::NotANumber => Err(ArgumentError::InvalidNumber { given: s.to_owned() }),
            Reading::Within(n) => match TopK::new(n as u16) {
                Ok(top_k) => Ok(TopKFromStrAdapter(top_k)),
                Err(_) => Err(ArgumentError::TopKOutOfBounds { given: s.to_owned() }),
            },
            Reading::Below => Err(ArgumentError::TopKOutOfBounds { given: s.to_owned() }),
            Reading::Above => Err(ArgumentError::TopKOutOfBounds { given: s.to_owned() }),
        }
    }
}

/// The top-p argument.
#[derive(Clone, Copy, Debug, PartialEq, Eq)]
pub struct TopPFromStrAdapter(pub TopP);

impl TopPFromStrAdapter {
    /// Accepts the number that the text `s` was read as, if it was read as
    /// one and lies between zero and one. Reading the text is the
    /// caller's part: `parsed` is `None` where `s` is no decimal fraction.
    pub fn from_str(s: &str, parsed: Option<Binary64>) -> (result: Result<
        TopPFromStrAdapter,
        ArgumentError,
    >)
        ensures
            (match parsed {
                None => result matches Err(ArgumentError::InvalidFloat { given }) && given@ == s@,
                Some(number) => if in_unit_interval(number.bits) {
                    result matches Ok(adapter) && adapter.0@ == number
                } else {
                    result matches Err(ArgumentError::TopPOutOfBounds { given }) && given@ == s@
                },
            }),
    {
        match parsed {
            None => Err(ArgumentError::InvalidFloat { given: s.to_owned() }),
            Some(number) => match TopP::new(number) {
                Ok(top_p) => Ok(TopPFromStrAdapter(top_p)),
                Err(_) => Err(ArgumentError::TopPOutOfBounds { given: s.to_owned() }),
            },
        }
    }
}

/// The engine that a word without a comma names.
pub open spec fn preset_named(name: Seq<char>) -> Option<EngineDefinition> {
    if name == "gpt6jb"@ {
        Some(EngineDefinition::GptJ6B)
    } else if name == "boris6b"@ {
        Some(EngineDefinition::Boris6B)
    } else if name == "fairseqgpt13b"@ {
        Some(EngineDefinition::FairseqGpt13B)
    } else {
        None
    }
}

/// The engine definition argument.
#[derive(Debug, PartialEq, Eq)]
pub struct EngineDefinitionFromStrAdapter(pub EngineDefinition);

impl EngineDefinitionFromStrAdapter {
    /// Reads an engine definition: the name of a preset, or the
    /// identifier of a custom engine, a comma and its context length.
    ///
    /// The text is split at its first comma. Without a comma it must be
    /// `gpt6jb`, `boris6b` or `fairseqgpt13b`. With one, the part before
    /// it is the identifier, whatever it holds, and the part behind it
    /// must be a decimal number above zero that fits the machine word.
    pub fn from_str(s: &str) -> (result: Result<EngineDefinitionFromStrAdapter, ArgumentError>)
        ensures
            (match split_once_spec(s@, ',') {
                None => match preset_named(s@) {
                    Some(preset) => result matches Ok(adapter) && adapter.0 == preset,
                    None => result matches Err(ArgumentError::MissingDelimiter),
                },
                Some((id, max_tokens)) => match parse_unsigned_spec(max_tokens, usize::MAX as nat) {
                    None => result matches Err(ArgumentError::InvalidMaxTokens),
                    Some(n) => if n == 0 {
                        result matches Err(ArgumentError::ZeroMaxTokens)
                    } else {
                        &&& result matches Ok(adapter)
                        &&& adapter.0 matches EngineDefinition::Custom(custom)
                        &&& custom.spec_id() == id
                        &&& custom.capacity() == n
                    },
                },
            }),
    {
        match split_once(s, ',') {
            None => {
                if same_text(s, "gpt6jb") {
                    Ok(EngineDefinitionFromStrAdapter(EngineDefinition::GptJ6B))
                } else if same_text(s, "boris6b") {
                    Ok(EngineDefinitionFromStrAdapter(EngineDefinition::Boris6B))
                } else if same_text(s, "fairseqgpt13b") {
                    Ok(EngineDefinitionFromStrAdapter(EngineDefinition::FairseqGpt13B))
                } else {
                    Err(ArgumentError::MissingDelimiter)
                }
            },
            Some((id, max_tokens)) => {
                match parse_unsigned(max_tokens, usize::MAX as u64) {
                    None => Err(ArgumentError::InvalidMaxTokens),
                    Some(n) => match CustomEngineDefinition::new(id.to_owned(), n as usize) {
                        Some(custom) => Ok(
                            EngineDefinitionFromStrAdapter(EngineDefinition::Custom(custom)),
                        ),
                        None => Err(ArgumentError::ZeroMaxTokens),
                    },
                }
            },
        }
    }
}

/// How a text completion is run.
#[derive(Debug, PartialEq, Eq)]
pub enum SynthTextTextCompletionMethod {
    /// At once: the whole completion comes back in one piece. The
    /// generation halts at the first occurrence of one of the strings of
    /// `until`, of which there are at most five.
    Now { until: Vec<String> },
    /// Streamed: the completion comes back in fragments.
    Stream,
}

/// What to do about the configuration file.
#[derive(Debug, PartialEq, Eq)]
pub enum SynthTextConfig {
    /// Say where the configuration file is, whether it exists or not.
    FindPath,
    /// Write a configuration file.
    Generate {
        /// Where to write it, if not at the usual place.
        path: Option<String>,
        /// The key that authenticates requests.
        api_key: String,
        /// The engine that requests go to.
        engine_definition: Option<EngineDefinitionFromStrAdapter>,
        /// Print the configuration rather than write it.
        dump: bool,
        /// Overwrite a file that is already there.
        create: bool,
    },
}

/// What the program is asked to do.
#[derive(Debug, PartialEq, Eq)]
pub enum SynthTextAction {
    /// Ask how likely `continuation` follows `context`. An empty context
    /// stands for the end-of-text token.
    LogProbabilities { context: String, continuation: NonEmptyStringFromStrAdapter },
    /// Complete `prompt`.
    TextCompletion {
        prompt: String,
        max_tokens: Option<usize>,
        temperature: Option<Binary64>,
        top_k: Option<TopKFromStrAdapter>,
        top_p: Option<TopPFromStrAdapter>,
        method: SynthTextTextCompletionMethod,
    },
    /// Find or generate the configuration.
    Config(SynthTextConfig),
}

impl SynthTextAction {
    /// Whether the action talks to the service, and so needs the
    /// configuration and the client: every action but those about the
    /// configuration itself.
    pub fn needs_configuration(&self) -> (result: bool)
        ensures
            result == !(self is Config),
    {
        match self {
            SynthTextAction::Config(_) => false,
            _ => true,
        }
    }
}

/// The command line as a whole.
#[derive(Debug, PartialEq, Eq)]
pub struct SynthText {
    /// A configuration file to use in place of the usual one.
    pub config: Option<String>,
    pub action: SynthTextAction,
}

} // verus!
