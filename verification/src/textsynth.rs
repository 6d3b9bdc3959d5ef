//! The client of the service and the engine that requests go to.
//!
//! Connecting to the service is the caller's part. This module keeps the
//! client once it is there, and makes the engine from the client and the
//! configuration.

use crate::completion::{LogProbabilitiesExecution, TextCompletionBuilder};
use crate::config::ConfigCell;
use crate::engine::EngineDefinition;
use crate::parameters::NonEmptyString;
use vstd::prelude::*;
use vstd::string::*;

verus! {

/// The client could not be set up.
#[derive(Debug, PartialEq, Eq)]
pub struct ClientError {
    pub cause: String,
}

impl ClientError {
    /// The text of [`ClientError::message`].
    pub open spec fn spec_message() -> Seq<char> {
        "failed to initialize the textsynth client"@
    }

    /// Says which stage failed.
    pub fn message(&self) -> (result: String)
        ensures
            result@ == ClientError::spec_message(),
    {
        "failed to initialize the textsynth client".to_owned()
    }
}

/// A client of the service, authenticated by its key.
#[derive(Debug, PartialEq, Eq)]
pub struct TextSynth {
    api_key: String,
}

/// One engine of the service, as requests see it.
#[derive(Debug, PartialEq, Eq)]
pub struct Engine {
    pub definition: EngineDefinition,
}

impl TextSynth {
    /// The key that authenticates the client's requests.
    pub closed spec fn spec_api_key(&self) -> Seq<char> {
        self.api_key@
    }

    /// A client that authenticates with `api_key`.
    pub fn new(api_key: String) -> (result: TextSynth)
        ensures
            result.spec_api_key() == api_key@,
    {
        TextSynth { api_key }
    }

    /// The key that authenticates the client's requests.
    pub fn api_key(&self) -> (result: &str)
        ensures
            result@ == self.spec_api_key(),
    {
        self.api_key.as_str()
    }

    /// The engine that `definition` describes.
    pub fn engine(&self, definition: EngineDefinition) -> (result: Engine)
        ensures
            result.definition == definition,
    {
        Engine { definition }
    }
}

impl Engine {
    /// A request for this engine to continue `prompt`, with no sampling
    /// parameter set.
    pub fn text_completion(&self, prompt: String) -> (result: TextCompletionBuilder)
        ensures
            result.definition() == self.definition,
            result.prompt() == prompt@,
            result.max_tokens() is None,
            result.temperature() is None,
            result.top_k() is None,
            result.top_p() is None,
    {
        TextCompletionBuilder::new(self.definition.clone(), prompt)
    }

    /// A request for the log probability with which `continuation`
    /// follows `context` on this engine.
    pub fn log_probabilities(&self, context: String, continuation: NonEmptyString) -> (result:
        LogProbabilitiesExecution)
        ensures
            result.request().engine_id@ == self.definition.spec_id(),
            result.request().context@ == context@,
            result.request().continuation@ == continuation@,
            result.request().continuation@.len() > 0,
    {
        LogProbabilitiesExecution::new(&self.definition, context, continuation)
    }
}

/// `c` may stand in the value of a header: a tab, or any character that
/// is no control character.
pub open spec fn fits_header(c: char) -> bool {
    c == '\t' || (c as u32 >= 0x20 && c as u32 != 0x7f)
}

/// Every character of `api_key` may stand in the value of a header.
pub open spec fn key_fits(api_key: Seq<char>) -> bool {
    forall|i: int| 0 <= i < api_key.len() ==> fits_header(#[trigger] api_key[i])
}

/// What to say of a key that cannot be sent.
pub open spec fn key_failure_text() -> Seq<char> {
    "the api key holds a character that no header may hold"@
}

/// Whether a client can authenticate with `api_key`: the key travels in
/// a header, so it must hold nothing that a header may not. Gives the
/// failure where it cannot, and nothing where it can.
pub fn key_failure(api_key: &str) -> (result: Option<String>)
    ensures
        result is None <==> key_fits(api_key@),
        result is Some ==> result->0@ == key_failure_text(),
{
    let len: usize = api_key.unicode_len();
    let mut i: usize = 0;
    while i < len
        invariant
            i <= len,
            len == api_key@.len(),
            forall|j: int| 0 <= j < i ==> fits_header(#[trigger] api_key@[j]),
        decreases len - i,
    {
        let c: char = api_key.get_char(i);
        if !(c == '\t' || (c >= ' ' && c != '\x7f')) {
            assert(!fits_header(api_key@[i as int]));
            return Some("the api key holds a character that no header may hold".to_owned());
        }
        i = i + 1;
    }
    None
}

/// A client that is set up at most once and kept from then on.
#[derive(Debug, PartialEq, Eq)]
pub struct TextSynthCell {
    client: Option<TextSynth>,
}

impl TextSynthCell {
    /// Whether a client is kept.
    pub closed spec fn is_initialized(&self) -> bool {
        self.client is Some
    }

    /// The client that is kept.
    pub closed spec fn client(&self) -> TextSynth
        recommends
            self.is_initialized(),
    {
        self.client->0
    }

    /// A cell without a client.
    pub fn new() -> (result: TextSynthCell)
        ensures
            !result.is_initialized(),
    {
        TextSynthCell { client: None }
    }

    /// Whether a client is kept.
    pub fn initialized(&self) -> (result: bool)
        ensures
            result == self.is_initialized(),
    {
        self.client.is_some()
    }
}

/// What setting up the client does: a cell that keeps a client stays as
/// it is and gives it, and nothing connects; an empty one lets `connect`
/// try once with the key, and keeps a client with that key where
/// `connect` reports no failure, or stays empty and gives the failure.
pub open spec fn kept_or_connected<F: FnOnce(&str) -> Option<String>>(
    before: TextSynthCell,
    after: TextSynthCell,
    api_key: Seq<char>,
    connect: F,
    result: Result<&TextSynth, ClientError>,
) -> bool {
    if before.is_initialized() {
        after == before && result == Ok::<&TextSynth, ClientError>(&before.client())
    } else {
        exists|key: &str, failure: Option<String>|
            key@ == api_key && #[trigger] call_ensures(connect, (key,), failure) && match failure {
                Some(cause) => after == before && result == Err::<&TextSynth, ClientError>(
                    ClientError { cause },
                ),
                None => after.is_initialized() && after.client().spec_api_key() == api_key
                    && result == Ok::<&TextSynth, ClientError>(&after.client()),
            }
    }
}

/// Sets up the client for `api_key`, unless one is kept already.
pub fn initialize<'a, F: FnOnce(&str) -> Option<String>>(
    cell: &'a mut TextSynthCell,
    api_key: String,
    connect: F,
) -> (result: Result<&'a TextSynth, ClientError>)
    requires
        forall|key: &str| call_requires(connect, (key,)),
    ensures
        kept_or_connected(*old(cell), *final(cell), api_key@, connect, result),
{
    if cell.client.is_none() {
        match connect(api_key.as_str()) {
            Some(cause) => {
                return Err(ClientError { cause });
            },
            None => {
                cell.client = Some(TextSynth::new(api_key));
            },
        }
    }
    Ok(cell.client.as_ref().unwrap())
}

/// The client that is kept.
pub fn get(cell: &TextSynthCell) -> (result: &TextSynth)
    requires
        cell.is_initialized(),
    ensures
        *result == cell.client(),
{
    cell.client.as_ref().unwrap()
}

/// The engine that the configuration names, on the client that is kept.
pub fn engine(cell: &TextSynthCell, config: &ConfigCell) -> (result: Engine)
    requires
        cell.is_initialized(),
        config.is_initialized(),
    ensures
        result.definition == config.config().engine_definition,
{
    get(cell).engine(crate::config::get(config).engine_definition.clone())
}

} // verus!
