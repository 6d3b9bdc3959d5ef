use owo_colors::OwoColorize;
use std::cell::Cell;
use synthtext::config::paths::{
    directory, location, NoProjectDirectories, Paths, APPLICATION, FILE_NAME, ORGANIZATION,
    QUALIFIER,
};
use synthtext::config::{default_engine_definition, Config, ConfigCell, ConfigError, Loaded};
use synthtext::engine::{CustomEngineDefinition, EngineDefinition};
use synthtext::textsynth::{key_failure, ClientError, TextSynthCell};

fn found_paths() -> Option<Paths> {
    let mut paths = Paths::new();
    match synthtext::config::paths::initialize(&mut paths) {
        Ok(()) => Some(paths),
        Err(NoProjectDirectories) => None,
    }
}

fn parsed(api_key: &str, engine_definition: Option<EngineDefinition>) -> Loaded {
    Loaded::Parsed { api_key: api_key.to_string(), engine_definition }
}

#[test]
fn paths_are_what_the_project_directories_say() {
    let mut paths = Paths::new();
    assert!(!paths.initialized());
    let outcome = synthtext::config::paths::initialize(&mut paths);
    let expected = directories::ProjectDirs::from(QUALIFIER, ORGANIZATION, APPLICATION);
    assert_eq!(outcome.is_ok(), expected.is_some());
    assert_eq!(paths.initialized(), expected.is_some());
    if let Some(dirs) = expected {
        assert_eq!(directory(&paths), dirs.config_dir().to_string_lossy());
        assert_eq!(location(&paths), dirs.config_dir().join("config.json").to_string_lossy());
        assert!(location(&paths).ends_with(FILE_NAME));
        assert!(location(&paths).starts_with(directory(&paths)));
        assert!(location(&paths).len() > directory(&paths).len() + FILE_NAME.len());
        assert_eq!(
            std::path::Path::new(location(&paths)).parent(),
            Some(std::path::Path::new(directory(&paths)))
        );
        assert_eq!(
            std::path::Path::new(location(&paths)).file_name().and_then(|name| name.to_str()),
            Some("config.json")
        );
    }
}

#[test]
fn paths_are_found_only_once() {
    if let Some(mut paths) = found_paths() {
        let before = (directory(&paths).to_string(), location(&paths).to_string());
        assert_eq!(synthtext::config::paths::initialize(&mut paths), Ok(()));
        assert_eq!((directory(&paths).to_string(), location(&paths).to_string()), before);
    }
}

#[test]
fn a_decoded_file_is_the_configuration() {
    let engine = EngineDefinition::Custom(CustomEngineDefinition::new("mine".to_string(), 9).unwrap());
    assert_eq!(
        Config::from_loaded("/etc/config.json", parsed("SECRET-REDACTED", Some(engine.clone()))),
        Ok(Config { api_key: "SECRET-REDACTED".to_string(), engine_definition: engine })
    );
}

#[test]
fn a_configuration_without_engine_gets_the_default() {
    assert_eq!(default_engine_definition(), EngineDefinition::GptJ6B);
    assert_eq!(Config::DEFAULT_ENGINE_DEFINITION, EngineDefinition::GptJ6B);
    assert_eq!(
        Config::from_loaded("c.json", parsed("key", None)),
        Ok(Config { api_key: "key".to_string(), engine_definition: EngineDefinition::GptJ6B })
    );
}

#[test]
fn a_file_that_cannot_be_read_is_a_read_error() {
    let missing = Loaded::Unreadable { missing: true, cause: "No such file".to_string() };
    let error = Config::from_loaded("/home/u/config.json", missing).unwrap_err();
    assert_eq!(
        error,
        ConfigError::Read {
            location: "/home/u/config.json".to_string(),
            missing: true,
            cause: "No such file".to_string()
        }
    );
    assert_eq!(
        error.message(),
        format!("failed to read path {}", "/home/u/config.json".bold())
    );
    assert_eq!(error.cause(), Some("No such file"));
    assert_eq!(
        error.tips(),
        vec![
            "generate the configuration file first".to_string(),
            format!("synthtext config generate --api-key {}", "<API KEY>".italic()),
        ]
    );
    let denied = Loaded::Unreadable { missing: false, cause: "Permission denied".to_string() };
    let error = Config::from_loaded("c.json", denied).unwrap_err();
    assert_eq!(error.tips(), Vec::<String>::new());
}

#[test]
fn a_file_that_does_not_decode_is_a_parse_error() {
    let error = Config::from_loaded("c.json", Loaded::Malformed { cause: "EOF".to_string() })
        .unwrap_err();
    assert_eq!(
        error,
        ConfigError::Parse { location: "c.json".to_string(), cause: "EOF".to_string() }
    );
    assert_eq!(
        error.message(),
        format!("failed to parse contents of path {} to json", "c.json".bold())
    );
    assert_eq!(error.cause(), Some("EOF"));
    assert!(error.tips().is_empty());
    assert_eq!(ConfigError::Directories.message(), "failed to initialize project directories");
    assert_eq!(ConfigError::Directories.cause(), None);
}

#[test]
fn load_with_location_reads_the_file_it_is_given() {
    let asked = Cell::new(None);
    let result = Config::load_with_location("/tmp/mine.json", |location: &str| {
        asked.set(Some(location.to_string()));
        parsed("key", Some(EngineDefinition::Boris6B))
    });
    assert_eq!(asked.take(), Some("/tmp/mine.json".to_string()));
    assert_eq!(
        result,
        Ok(Config { api_key: "key".to_string(), engine_definition: EngineDefinition::Boris6B })
    );
}

#[test]
fn load_reads_the_usual_place() {
    if let Some(paths) = found_paths() {
        let asked = Cell::new(None);
        let result = Config::load(&paths, |location: &str| {
            asked.set(Some(location.to_string()));
            Loaded::Malformed { cause: "bad".to_string() }
        });
        assert_eq!(asked.take(), Some(location(&paths).to_string()));
        assert_eq!(
            result,
            Err(ConfigError::Parse {
                location: location(&paths).to_string(),
                cause: "bad".to_string()
            })
        );
    }
}

#[test]
fn a_cell_loads_once_and_keeps_what_it_loaded() {
    let reads = Cell::new(0);
    let mut cell = ConfigCell::new();
    assert!(!cell.initialized());
    let first = Config::initialize_with_location(&mut cell, "a.json", |_: &str| {
        reads.set(reads.get() + 1);
        parsed("first", None)
    })
    .map(|config| config.api_key.clone());
    assert_eq!(first, Ok("first".to_string()));
    assert!(cell.initialized());
    let second = Config::initialize_with_location(&mut cell, "b.json", |_: &str| {
        reads.set(reads.get() + 1);
        parsed("second", None)
    })
    .map(|config| config.api_key.clone());
    assert_eq!(second, Ok("first".to_string()));
    assert_eq!(reads.get(), 1);
    assert_eq!(Config::get(&cell).api_key, "first");
    assert_eq!(synthtext::config::get(&cell).engine_definition, EngineDefinition::GptJ6B);
}

#[test]
fn a_cell_stays_empty_where_loading_fails() {
    let mut cell = ConfigCell::new();
    let outcome = Config::initialize_with_location(&mut cell, "a.json", |_: &str| {
        Loaded::Unreadable { missing: true, cause: "gone".to_string() }
    })
    .map(|config| config.api_key.clone());
    assert_eq!(
        outcome,
        Err(ConfigError::Read {
            location: "a.json".to_string(),
            missing: true,
            cause: "gone".to_string()
        })
    );
    assert!(!cell.initialized());
    let outcome = Config::initialize_with_location(&mut cell, "a.json", |_: &str| parsed("k", None))
        .map(|config| config.api_key.clone());
    assert_eq!(outcome, Ok("k".to_string()));
    assert!(cell.initialized());
}

#[test]
fn the_free_functions_find_the_paths_first() {
    let expected = directories::ProjectDirs::from(QUALIFIER, ORGANIZATION, APPLICATION);
    let mut paths = Paths::new();
    let loaded = synthtext::config::load(&mut paths, |_: &str| parsed("k", None));
    assert_eq!(paths.initialized(), expected.is_some());
    match expected {
        Some(_) => assert_eq!(loaded.map(|config| config.api_key), Ok("k".to_string())),
        None => assert_eq!(loaded, Err(ConfigError::Directories)),
    }

    let mut paths = Paths::new();
    let loaded = synthtext::config::load_with_location(&mut paths, "x.json", |_: &str| {
        Loaded::Malformed { cause: "bad".to_string() }
    });
    assert_eq!(paths.initialized(), expected.is_some());
    match expected {
        Some(_) => assert_eq!(
            loaded,
            Err(ConfigError::Parse { location: "x.json".to_string(), cause: "bad".to_string() })
        ),
        None => assert_eq!(loaded, Err(ConfigError::Directories)),
    }

    let mut paths = Paths::new();
    let mut cell = ConfigCell::new();
    let asked = Cell::new(None);
    let kept = synthtext::config::initialize(&mut cell, &mut paths, |location: &str| {
        asked.set(Some(location.to_string()));
        parsed("k", None)
    })
    .map(|config| config.api_key.clone());
    match expected {
        Some(_) => {
            assert_eq!(kept, Ok("k".to_string()));
            assert_eq!(asked.take(), Some(location(&paths).to_string()));
            assert!(cell.initialized());
        }
        None => {
            assert_eq!(kept, Err(ConfigError::Directories));
            assert_eq!(asked.take(), None);
            assert!(!cell.initialized());
        }
    }

    let mut paths = Paths::new();
    let mut cell = ConfigCell::new();
    let kept = synthtext::config::initialize_with_location(&mut cell, &mut paths, "y.json", |_: &str| {
        parsed("other", Some(EngineDefinition::FairseqGpt13B))
    })
    .map(|config| config.engine_definition.clone());
    match expected {
        Some(_) => assert_eq!(kept, Ok(EngineDefinition::FairseqGpt13B)),
        None => assert_eq!(kept, Err(ConfigError::Directories)),
    }
}

#[test]
fn the_client_is_set_up_once() {
    let attempts = Cell::new(0);
    let mut cell = TextSynthCell::new();
    assert!(!cell.initialized());
    let failed = synthtext::textsynth::initialize(&mut cell, "bad\nkey".to_string(), |key: &str| {
        attempts.set(attempts.get() + 1);
        assert_eq!(key, "bad\nkey");
        Some("invalid header value".to_string())
    })
    .map(|client| client.api_key().to_string());
    assert_eq!(failed, Err(ClientError { cause: "invalid header value".to_string() }));
    assert!(!cell.initialized());
    let first = synthtext::textsynth::initialize(&mut cell, "key one".to_string(), |_: &str| {
        attempts.set(attempts.get() + 1);
        None
    })
    .map(|client| client.api_key().to_string());
    assert_eq!(first, Ok("key one".to_string()));
    let second = synthtext::textsynth::initialize(&mut cell, "key two".to_string(), |_: &str| {
        attempts.set(attempts.get() + 1);
        Some("never asked".to_string())
    })
    .map(|client| client.api_key().to_string());
    assert_eq!(second, Ok("key one".to_string()));
    assert_eq!(attempts.get(), 2);
    assert_eq!(synthtext::textsynth::get(&cell).api_key(), "key one");
    assert_eq!(
        ClientError { cause: String::new() }.message(),
        "failed to initialize the textsynth client"
    );
}

#[test]
fn the_engine_is_the_one_of_the_configuration() {
    let mut client = TextSynthCell::new();
    let _ = synthtext::textsynth::initialize(&mut client, "key".to_string(), |_: &str| None);
    let mut config = ConfigCell::new();
    let custom = EngineDefinition::Custom(CustomEngineDefinition::new("mine".to_string(), 64).unwrap());
    let definition = custom.clone();
    let _ = Config::initialize_with_location(&mut config, "c.json", move |_: &str| {
        Loaded::Parsed { api_key: "key".to_string(), engine_definition: Some(definition) }
    });
    let engine = synthtext::textsynth::engine(&client, &config);
    assert_eq!(engine.definition, custom);
    let request = engine.text_completion("Hi".to_string()).execute_now(None);
    assert_eq!(request.wire_request().engine_id, "mine");
    assert_eq!(request.wire_request().prompt, "Hi");
    let other = synthtext::textsynth::get(&client).engine(EngineDefinition::Boris6B);
    assert_eq!(other.definition, EngineDefinition::Boris6B);
}

#[test]
fn the_project_is_filed_under_its_names() {
    assert_eq!(QUALIFIER, "com");
    assert_eq!(ORGANIZATION, "ALinuxPerson");
    assert_eq!(APPLICATION, "synthtext");
    assert_eq!(FILE_NAME, "config.json");
}

#[test]
fn a_key_must_fit_a_header() {
    assert_eq!(key_failure("SECRET-REDACTED"), None);
    assert_eq!(key_failure(""), None);
    assert_eq!(key_failure("with space and\ttab"), None);
    assert_eq!(key_failure("cl\u{e9} \u{1f511}"), None);
    let failure = Some("the api key holds a character that no header may hold".to_string());
    assert_eq!(key_failure("two\nlines"), failure);
    assert_eq!(key_failure("\r"), failure);
    assert_eq!(key_failure("nul\0"), failure);
    assert_eq!(key_failure("del\u{7f}"), failure);
    assert_eq!(key_failure("\u{1f}"), failure);
    let mut cell = TextSynthCell::new();
    let outcome = synthtext::textsynth::initialize(&mut cell, "bad\nkey".to_string(), |key: &str| {
        key_failure(key)
    })
    .map(|client| client.api_key().to_string());
    assert_eq!(
        outcome,
        Err(ClientError { cause: "the api key holds a character that no header may hold".to_string() })
    );
    assert!(!cell.initialized());
}
