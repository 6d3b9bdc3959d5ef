//! The configuration: the key that authenticates requests and the engine
//! that they go to.
//!
//! Reading and decoding the configuration file is the caller's part. What
//! was found comes in as a [`Loaded`] value; this module says what
//! configuration, or what error, that amounts to, and keeps the
//! configuration once it is there.

pub mod paths;

use crate::config::paths::{NoProjectDirectories, Paths};
use crate::engine::EngineDefinition;
use crate::style::{bold, bold_text, italic, italic_text};
use vstd::prelude::*;
use vstd::string::*;

verus! {

/// What reading and decoding a configuration file found.
#[derive(Debug, PartialEq, Eq)]
pub enum Loaded {
    /// The file could not be read; `missing` where there is no such file.
    Unreadable { missing: bool, cause: String },
    /// The file was read and holds no configuration.
    Malformed { cause: String },
    /// The file holds a configuration, with or without an engine.
    Parsed { api_key: String, engine_definition: Option<EngineDefinition> },
}

/// Why no configuration could be had.
#[allow(inconsistent_fields)]
#[derive(Debug, PartialEq, Eq)]
pub enum ConfigError {
    /// The machine names no place for the configuration.
    Directories,
    /// The file at `location` could not be read.
    Read { location: String, missing: bool, cause: String },
    /// The file at `location` holds no configuration.
    Parse { location: String, cause: String },
}

impl ConfigError {
    /// The text of [`ConfigError::message`].
    pub open spec fn spec_message(&self) -> Seq<char> {
        match self {
            ConfigError::Directories => "failed to initialize project directories"@,
            ConfigError::Read { location, .. } => "failed to read path "@ + bold_text(location@),
            ConfigError::Parse { location, .. } => "failed to parse contents of path "@ + bold_text(
                location@,
            ) + " to json"@,
        }
    }

    /// The cause that the error wraps, where it has one.
    pub open spec fn spec_cause(&self) -> Option<Seq<char>> {
        match self {
            ConfigError::Directories => None,
            ConfigError::Read { cause, .. } => Some(cause@),
            ConfigError::Parse { cause, .. } => Some(cause@),
        }
    }

    /// Whether the user is to be told how to generate a configuration:
    /// where the file is missing, and only there.
    pub open spec fn spec_wants_tips(&self) -> bool {
        self matches ConfigError::Read { missing: true, .. }
    }

    /// Says which stage failed, with the file's place in bold.
    pub fn message(&self) -> (result: String)
        ensures
            result@ == self.spec_message(),
    {
        let mut out = String::new();
        match self {
            ConfigError::Directories => {
                out.append("failed to initialize project directories");
            },
            ConfigError::Read { location, .. } => {
                out.append("failed to read path ");
                out.append(bold(location.as_str()).as_str());
            },
            ConfigError::Parse { location, .. } => {
                out.append("failed to parse contents of path ");
                out.append(bold(location.as_str()).as_str());
                out.append(" to json");
            },
        }
        assert(out@ =~= self.spec_message());
        out
    }

    /// The cause that the error wraps, where it has one.
    pub fn cause(&self) -> (result: Option<&str>)
        ensures
            (match result {
                Some(cause) => self.spec_cause() == Some(cause@),
                None => self.spec_cause() is None,
            }),
    {
        match self {
            ConfigError::Directories => None,
            ConfigError::Read { cause, .. } => Some(cause.as_str()),
            ConfigError::Parse { cause, .. } => Some(cause.as_str()),
        }
    }

    /// The two tips for a user without a configuration file, or nothing
    /// where the error is another.
    pub fn tips(&self) -> (result: Vec<String>)
        ensures
            self.spec_wants_tips() ==> result@.len() == 2 && result@[0]@
                == "generate the configuration file first"@ && result@[1]@
                == "synthtext config generate --api-key "@ + italic_text("<API KEY>"@),
            !self.spec_wants_tips() ==> result@.len() == 0,
    {
        let mut out: Vec<String> = Vec::new();
        match self {
            ConfigError::Read { missing, .. } => {
                if *missing {
                    out.push("generate the configuration file first".to_owned());
                    let mut command = "synthtext config generate --api-key ".to_owned();
                    command.append(italic("<API KEY>").as_str());
                    out.push(command);
                }
            },
            _ => {},
        }
        out
    }
}

/// The configuration.
#[derive(Debug, PartialEq, Eq)]
pub struct Config {
    pub api_key: String,
    pub engine_definition: EngineDefinition,
}

/// The engine of a configuration that names none.
pub fn default_engine_definition() -> (result: EngineDefinition)
    ensures
        result == Config::DEFAULT_ENGINE_DEFINITION,
{
    Config::DEFAULT_ENGINE_DEFINITION
}

/// A configuration that is loaded at most once and kept from then on.
#[derive(Debug, PartialEq, Eq)]
pub struct ConfigCell {
    config: Option<Config>,
}

impl ConfigCell {
    /// Whether a configuration is kept.
    pub closed spec fn is_initialized(&self) -> bool {
        self.config is Some
    }

    /// The configuration that is kept.
    pub closed spec fn config(&self) -> Config
        recommends
            self.is_initialized(),
    {
        self.config->0
    }

    /// A cell without a configuration.
    pub fn new() -> (result: ConfigCell)
        ensures
            !result.is_initialized(),
    {
        ConfigCell { config: None }
    }

    /// Whether a configuration is kept. Where one is, the file need not
    /// be read again.
    pub fn initialized(&self) -> (result: bool)
        ensures
            result == self.is_initialized(),
    {
        self.config.is_some()
    }
}

impl Config {
    pub const DEFAULT_ENGINE_DEFINITION: EngineDefinition = EngineDefinition::GptJ6B;

    /// What `loaded`, found at `location`, amounts to.
    pub open spec fn loaded_from(location: Seq<char>, loaded: Loaded) -> Result<
        (Seq<char>, EngineDefinition),
        ConfigFault,
    > {
        match loaded {
            Loaded::Unreadable { missing, cause } => Err(
                ConfigFault::Read { location, missing, cause: cause@ },
            ),
            Loaded::Malformed { cause } => Err(ConfigFault::Parse { location, cause: cause@ }),
            Loaded::Parsed { api_key, engine_definition } => Ok(
                (
                    api_key@,
                    match engine_definition {
                        Some(definition) => definition,
                        None => Config::DEFAULT_ENGINE_DEFINITION,
                    },
                ),
            ),
        }
    }

    /// Whether `result` is what [`Config::loaded_from`] describes.
    pub open spec fn matches_loaded(
        result: Result<Config, ConfigError>,
        expected: Result<(Seq<char>, EngineDefinition), ConfigFault>,
    ) -> bool {
        match result {
            Ok(config) => expected == Ok::<(Seq<char>, EngineDefinition), ConfigFault>(
                (config.api_key@, config.engine_definition),
            ),
            Err(error) => expected is Err && expected->Err_0 == error@,
        }
    }

    /// What a configuration file found at `location` amounts to: the
    /// configuration that was decoded, with the default engine where it
    /// names none, or the error of the stage that failed, with its cause.
    pub fn from_loaded(location: &str, loaded: Loaded) -> (result: Result<Config, ConfigError>)
        ensures
            Config::matches_loaded(result, Config::loaded_from(location@, loaded)),
    {
        match loaded {
            Loaded::Unreadable { missing, cause } => Err(
                ConfigError::Read { location: location.to_owned(), missing, cause },
            ),
            Loaded::Malformed { cause } => Err(
                ConfigError::Parse { location: location.to_owned(), cause },
            ),
            Loaded::Parsed { api_key, engine_definition } => {
                let engine_definition = match engine_definition {
                    Some(definition) => definition,
                    None => default_engine_definition(),
                };
                Ok(Config { api_key, engine_definition })
            },
        }
    }

    /// Keeps the configuration of the usual place, unless one is kept
    /// already: then nothing is read.
    pub fn initialize<'a, F: FnOnce(&str) -> Loaded>(
        cell: &'a mut ConfigCell,
        paths: &Paths,
        read: F,
    ) -> (result: Result<&'a Config, ConfigError>)
        requires
            paths.is_initialized(),
            forall|location: &str| call_requires(read, (location,)),
        ensures
            Config::kept_or_loaded(*old(cell), *final(cell), paths.spec_location(), read, result),
    {
        Config::initialize_with_location(cell, paths::location(paths), read)
    }

    /// Keeps the configuration of the file at `location`, unless one is
    /// kept already: then nothing is read.
    pub fn initialize_with_location<'a, F: FnOnce(&str) -> Loaded>(
        cell: &'a mut ConfigCell,
        location: &str,
        read: F,
    ) -> (result: Result<&'a Config, ConfigError>)
        requires
            forall|location: &str| call_requires(read, (location,)),
        ensures
            Config::kept_or_loaded(*old(cell), *final(cell), location@, read, result),
    {
        if cell.config.is_none() {
            match Config::load_with_location(location, read) {
                Ok(config) => {
                    cell.config = Some(config);
                },
                Err(error) => {
                    return Err(error);
                },
            }
        }
        Ok(cell.config.as_ref().unwrap())
    }

    /// What initialising a cell does: a cell that keeps a configuration
    /// stays as it is and gives it; an empty one reads the file at
    /// `location` once and keeps what was loaded, or stays empty and
    /// gives the error.
    pub open spec fn kept_or_loaded<F: FnOnce(&str) -> Loaded>(
        before: ConfigCell,
        after: ConfigCell,
        location: Seq<char>,
        read: F,
        result: Result<&Config, ConfigError>,
    ) -> bool {
        if before.is_initialized() {
            after == before && result == Ok::<&Config, ConfigError>(&before.config())
        } else {
            match result {
                Ok(config) => after.is_initialized() && *config == after.config()
                    && Config::read_at(location, read, Ok(*config)),
                Err(error) => after == before && Config::read_at(location, read, Err(error)),
            }
        }
    }

    /// `result` is what some outcome of `read`, asked for the file at
    /// `location`, amounts to.
    pub open spec fn read_at<F: FnOnce(&str) -> Loaded>(
        location: Seq<char>,
        read: F,
        result: Result<Config, ConfigError>,
    ) -> bool {
        exists|asked: &str, loaded: Loaded|
            asked@ == location && #[trigger] call_ensures(read, (asked,), loaded)
                && Config::matches_loaded(result, Config::loaded_from(location, loaded))
    }

    /// Reads the configuration of the usual place.
    pub fn load<F: FnOnce(&str) -> Loaded>(paths: &Paths, read: F) -> (result: Result<
        Config,
        ConfigError,
    >)
        requires
            paths.is_initialized(),
            forall|location: &str| call_requires(read, (location,)),
        ensures
            Config::read_at(paths.spec_location(), read, result),
    {
        Config::load_with_location(paths::location(paths), read)
    }

    /// Reads the configuration of the file at `location`: `read` is asked
    /// for that file, once, and what it found decides.
    pub fn load_with_location<F: FnOnce(&str) -> Loaded>(location: &str, read: F) -> (result:
        Result<Config, ConfigError>)
        requires
            forall|location: &str| call_requires(read, (location,)),
        ensures
            Config::read_at(location@, read, result),
    {
        let loaded = read(location);
        Config::from_loaded(location, loaded)
    }

    /// The configuration that is kept.
    pub fn get(cell: &ConfigCell) -> (result: &Config)
        requires
            cell.is_initialized(),
        ensures
            *result == cell.config(),
    {
        cell.config.as_ref().unwrap()
    }
}

/// What finding the paths did: paths that were found stay as they are;
/// others are found now, or stay unfound where `failed`.
pub open spec fn paths_found(before: Paths, after: Paths, failed: bool) -> bool {
    &&& before.is_initialized() ==> after == before
    &&& failed ==> after == before
    &&& failed <==> !after.is_initialized()
}

/// Finds the paths, then reads the configuration of the usual place.
/// Where the paths cannot be found nothing is read.
pub fn load<F: FnOnce(&str) -> Loaded>(paths: &mut Paths, read: F) -> (result: Result<
    Config,
    ConfigError,
>)
    requires
        forall|location: &str| call_requires(read, (location,)),
    ensures
        paths_found(*old(paths), *final(paths), result matches Err(ConfigError::Directories)),
        final(paths).is_initialized() ==> Config::read_at(
            final(paths).spec_location(),
            read,
            result,
        ),
{
    match paths::initialize(paths) {
        Ok(_) => Config::load(paths, read),
        Err(_) => Err(ConfigError::Directories),
    }
}

/// Finds the paths, then reads the configuration of the file at
/// `location`. Where the paths cannot be found nothing is read.
pub fn load_with_location<F: FnOnce(&str) -> Loaded>(
    paths: &mut Paths,
    location: &str,
    read: F,
) -> (result: Result<Config, ConfigError>)
    requires
        forall|location: &str| call_requires(read, (location,)),
    ensures
        paths_found(*old(paths), *final(paths), result matches Err(ConfigError::Directories)),
        final(paths).is_initialized() ==> Config::read_at(location@, read, result),
{
    match paths::initialize(paths) {
        Ok(_) => Config::load_with_location(location, read),
        Err(_) => Err(ConfigError::Directories),
    }
}

/// Finds the paths, then keeps the configuration of the usual place,
/// unless one is kept already. Where the paths cannot be found the cell
/// stays as it is and nothing is read.
pub fn initialize<'a, F: FnOnce(&str) -> Loaded>(
    cell: &'a mut ConfigCell,
    paths: &mut Paths,
    read: F,
) -> (result: Result<&'a Config, ConfigError>)
    requires
        forall|location: &str| call_requires(read, (location,)),
    ensures
        paths_found(*old(paths), *final(paths), result matches Err(ConfigError::Directories)),
        final(paths).is_initialized() ==> Config::kept_or_loaded(
            *old(cell),
            *final(cell),
            final(paths).spec_location(),
            read,
            result,
        ),
        !final(paths).is_initialized() ==> *final(cell) == *old(cell),
{
    match paths::initialize(paths) {
        Ok(_) => Config::initialize(cell, paths, read),
        Err(_) => Err(ConfigError::Directories),
    }
}

/// Finds the paths, then keeps the configuration of the file at
/// `location`, unless one is kept already. Where the paths cannot be
/// found the cell stays as it is and nothing is read.
pub fn initialize_with_location<'a, F: FnOnce(&str) -> Loaded>(
    cell: &'a mut ConfigCell,
    paths: &mut Paths,
    location: &str,
    read: F,
) -> (result: Result<&'a Config, ConfigError>)
    requires
        forall|location: &str| call_requires(read, (location,)),
    ensures
        paths_found(*old(paths), *final(paths), result matches Err(ConfigError::Directories)),
        final(paths).is_initialized() ==> Config::kept_or_loaded(
            *old(cell),
            *final(cell),
            location@,
            read,
            result,
        ),
        !final(paths).is_initialized() ==> *final(cell) == *old(cell),
{
    match paths::initialize(paths) {
        Ok(_) => Config::initialize_with_location(cell, location, read),
        Err(_) => Err(ConfigError::Directories),
    }
}

/// The configuration that is kept.
pub fn get(cell: &ConfigCell) -> (result: &Config)
    requires
        cell.is_initialized(),
    ensures
        *result == cell.config(),
{
    Config::get(cell)
}

/// A [`ConfigError`] as mathematical values.
pub enum ConfigFault {
    Directories,
    Read { location: Seq<char>, missing: bool, cause: Seq<char> },
    Parse { location: Seq<char>, cause: Seq<char> },
}

impl View for ConfigError {
    type V = ConfigFault;

    open spec fn view(&self) -> ConfigFault {
        match self {
            ConfigError::Directories => ConfigFault::Directories,
            ConfigError::Read { location, missing, cause } => ConfigFault::Read {
                location: location@,
                missing: *missing,
                cause: cause@,
            },
            ConfigError::Parse { location, cause } => ConfigFault::Parse {
                location: location@,
                cause: cause@,
            },
        }
    }
}

} // verus!
