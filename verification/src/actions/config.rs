//! The configuration commands: where the file is, and how to write one.
//!
//! Nothing here touches a file. The caller looks at the disk and hands in
//! what it saw; what comes back is what to tell the user, or the plan of
//! what to write where.

use crate::args::EngineDefinitionFromStrAdapter;
use crate::config::paths::{location, Paths};
use crate::config::{default_engine_definition, Config};
use crate::engine::EngineDefinition;
use crate::parameters::texts;
use crate::style::{bold, bold_text, green, green_text, italic, italic_text, red, red_text};
use crate::text::same_text;
use vstd::prelude::*;
use vstd::string::*;

verus! {

/// The mark behind a path: whether something is there.
pub open spec fn existing_text(exists: bool) -> Seq<char> {
    if exists {
        italic_text(green_text("(existing)"@))
    } else {
        italic_text(red_text("(non-existing)"@))
    }
}

/// The mark behind a path: `(existing)` in green where something is there,
/// `(non-existing)` in red where nothing is, both in italics.
pub fn existing(exists: bool) -> (result: String)
    ensures
        result@ == existing_text(exists),
{
    if exists {
        italic(green("(existing)").as_str())
    } else {
        italic(red("(non-existing)").as_str())
    }
}

/// A path as it is shown, and whether something is there.
#[derive(Debug, PartialEq, Eq)]
pub struct Located {
    pub path: String,
    pub exists: bool,
}

/// The line that tells where the configuration is.
pub open spec fn located_line(path: Seq<char>, exists: bool) -> Seq<char> {
    "the config path is located at "@ + bold_text(path) + " "@ + existing_text(exists)
}

/// The line that tells where the configuration would be, were it not
/// overridden.
pub open spec fn would_be_located_line(path: Seq<char>, exists: bool) -> Seq<char> {
    "the config path "@ + italic_text("would"@) + " be located at "@ + bold_text(path) + " "@
        + existing_text(exists)
}

/// The line that tells what the place was overridden to.
pub open spec fn overridden_line(path: Seq<char>, exists: bool) -> Seq<char> {
    "...but it was overridden to "@ + bold_text(path) + " "@ + existing_text(exists)
}

/// What to tell a user who asks where the configuration is.
pub open spec fn find_path_lines(
    default_location: Seq<char>,
    default_exists: bool,
    config_path_override: Option<Located>,
) -> Seq<Seq<char>> {
    match config_path_override {
        Some(overriding) => seq![
            would_be_located_line(default_location, default_exists),
            overridden_line(overriding.path@, overriding.exists),
        ],
        None => seq![located_line(default_location, default_exists)],
    }
}

/// Says where the configuration is: at the usual place, or, where that
/// was overridden, where it would be and what it was overridden to. Each
/// path is followed by the mark of [`existing`].
pub fn find_path(paths: &Paths, default_exists: bool, config_path_override: Option<Located>) -> (result:
    Vec<String>)
    requires
        paths.is_initialized(),
    ensures
        texts(result@) == find_path_lines(
            paths.spec_location(),
            default_exists,
            config_path_override,
        ),
{
    let default_location = location(paths);
    let mut lines: Vec<String> = Vec::new();
    match config_path_override {
        Some(overriding) => {
            let mut first = "the config path ".to_owned();
            first.append(italic("would").as_str());
            first.append(" be located at ");
            first.append(bold(default_location).as_str());
            first.append(" ");
            first.append(existing(default_exists).as_str());
            assert(first@ =~= would_be_located_line(paths.spec_location(), default_exists));
            let mut second = "...but it was overridden to ".to_owned();
            second.append(bold(overriding.path.as_str()).as_str());
            second.append(" ");
            second.append(existing(overriding.exists).as_str());
            assert(second@ =~= overridden_line(overriding.path@, overriding.exists));
            lines.push(first);
            lines.push(second);
        },
        None => {
            let mut line = "the config path is located at ".to_owned();
            line.append(bold(default_location).as_str());
            line.append(" ");
            line.append(existing(default_exists).as_str());
            assert(line@ =~= located_line(paths.spec_location(), default_exists));
            lines.push(line);
        },
    }
    assert(texts(lines@) =~= find_path_lines(
        paths.spec_location(),
        default_exists,
        config_path_override,
    ));
    lines
}

/// How to open the file that the configuration is written to.
#[derive(Clone, Copy, Debug, PartialEq, Eq, Structural)]
pub struct OpenMode {
    /// Open for writing.
    pub write: bool,
    /// Create the file where there is none.
    pub create: bool,
    /// Empty the file where there is one.
    pub truncate: bool,
    /// Create the file, and fail where there is one.
    pub create_new: bool,
}

/// The mode for writing a configuration: over whatever is there where
/// `create` is set, else only where nothing is there.
pub open spec fn open_mode(create: bool) -> OpenMode {
    OpenMode { write: true, create, truncate: create, create_new: !create }
}

/// Where a configuration goes.
#[derive(Debug, PartialEq, Eq)]
pub enum Target {
    /// To standard output, followed by a line feed.
    Stdout,
    /// To the file at `path`, opened in `mode`.
    File { path: String, mode: OpenMode },
}

/// The plan for generating a configuration: what to write, and where.
#[derive(Debug, PartialEq, Eq)]
pub struct Generation {
    pub target: Target,
    pub config: Config,
}

/// The place that a configuration is written to: the path that was
/// given, else the one that overrides the usual place, else the usual
/// place.
pub open spec fn chosen_path(
    path: Option<String>,
    config_path_override: Option<String>,
    default_location: Seq<char>,
) -> Seq<char> {
    match path {
        Some(path) => path@,
        None => match config_path_override {
            Some(overriding) => overriding@,
            None => default_location,
        },
    }
}

/// The engine of a generated configuration: the one that was given, else
/// the default.
pub open spec fn chosen_engine(engine_definition: Option<EngineDefinitionFromStrAdapter>)
    -> EngineDefinition {
    match engine_definition {
        Some(adapter) => adapter.0,
        None => Config::DEFAULT_ENGINE_DEFINITION,
    }
}

/// Plans the generation of a configuration.
///
/// With `dump` it goes to standard output and no path matters. Else it
/// goes to a file: at `path`, else at `config_path_override`, else at the
/// usual place, which must then be known. The file is overwritten only
/// where `create` is set.
pub fn generate(
    paths: &Paths,
    config_path_override: Option<String>,
    path: Option<String>,
    api_key: String,
    engine_definition: Option<EngineDefinitionFromStrAdapter>,
    dump: bool,
    create: bool,
) -> (result: Generation)
    requires
        !dump && path is None && config_path_override is None ==> paths.is_initialized(),
    ensures
        result.config.api_key@ == api_key@,
        result.config.engine_definition == chosen_engine(engine_definition),
        dump ==> result.target == Target::Stdout,
        !dump ==> (result.target matches Target::File { path: chosen, mode } && chosen@
            == chosen_path(path, config_path_override, paths.spec_location()) && mode == open_mode(
            create,
        )),
{
    let target = if dump {
        Target::Stdout
    } else {
        let chosen: String = match path {
            Some(path) => path,
            None => match config_path_override {
                Some(overriding) => overriding,
                None => location(paths).to_owned(),
            },
        };
        Target::File {
            path: chosen,
            mode: OpenMode { write: true, create, truncate: create, create_new: !create },
        }
    };
    let engine_definition = match engine_definition {
        Some(adapter) => adapter.0,
        None => default_engine_definition(),
    };
    Generation { target, config: Config { api_key, engine_definition } }
}

/// What stands in for the key where a command line is shown.
pub open spec fn redaction() -> Seq<char> {
    "<API KEY REDACTED>"@
}

/// The arguments of a command line, each as it is shown: the key is
/// never shown.
pub open spec fn redacted(arguments: Seq<Seq<char>>, api_key: Seq<char>) -> Seq<Seq<char>> {
    Seq::new(
        arguments.len(),
        |i: int|
            if arguments[i] == api_key {
                redaction()
            } else {
                arguments[i]
            },
    )
}

/// `parts` in one line, with a space between each two.
pub open spec fn spaced(parts: Seq<Seq<char>>) -> Seq<char>
    decreases parts.len(),
{
    if parts.len() == 0 {
        Seq::empty()
    } else if parts.len() == 1 {
        parts[0]
    } else {
        spaced(parts.drop_last()) + seq![' '] + parts.last()
    }
}

/// The command line that the program was run with, fit to be shown:
/// every argument that equals the key is replaced.
pub fn redacted_command(arguments: &Vec<String>, api_key: &str) -> (result: String)
    ensures
        result@ == spaced(redacted(texts(arguments@), api_key@)),
{
    let ghost shown = redacted(texts(arguments@), api_key@);
    let mut command = String::new();
    let mut i: usize = 0;
    proof {
        reveal_strlit(" ");
        assert(shown.take(0) =~= Seq::<Seq<char>>::empty());
    }
    while i < arguments.len()
        invariant
            i <= arguments@.len(),
            shown == redacted(texts(arguments@), api_key@),
            command@ == spaced(shown.take(i as int)),
            " "@ == seq![' '],
        decreases arguments@.len() - i,
    {
        if i > 0 {
            command.append(" ");
        }
        let argument = arguments[i].as_str();
        if same_text(argument, api_key) {
            command.append("<API KEY REDACTED>");
        } else {
            command.append(argument);
        }
        proof {
            let next = shown.take(i + 1);
            assert(next.drop_last() =~= shown.take(i as int));
            assert(next.last() == shown[i as int]);
            assert(command@ =~= spaced(next));
        }
        i = i + 1;
    }
    assert(shown.take(i as int) =~= shown);
    command
}

/// The tip that explains why an existing file is not overwritten.
pub open spec fn precaution_tip() -> Seq<char> {
    "as a precaution, writing a config file fails if it already exists. if this behavior is undesirable, pass the "@
        + bold_text("-c/--create"@) + " argument in your command."@
}

/// The tips for a user whose configuration file is already there.
pub open spec fn already_exists_tips_spec(arguments: Seq<Seq<char>>, api_key: Seq<char>) -> Seq<
    Seq<char>,
> {
    let command = spaced(redacted(arguments, api_key));
    seq![
        precaution_tip(),
        "short variant: "@ + italic_text(command + " -c"@),
        "long variant: "@ + italic_text(command + " --create"@),
    ]
}

/// Tells a user whose configuration file is already there how to
/// overwrite it: by the command line they ran, with the key left out,
/// and the flag that overwrites added.
pub fn already_exists_tips(arguments: &Vec<String>, api_key: &str) -> (result: Vec<String>)
    ensures
        texts(result@) == already_exists_tips_spec(texts(arguments@), api_key@),
{
    let command = redacted_command(arguments, api_key);
    let mut precaution =
        "as a precaution, writing a config file fails if it already exists. if this behavior is undesirable, pass the ".to_owned();
    precaution.append(bold("-c/--create").as_str());
    precaution.append(" argument in your command.");
    assert(precaution@ =~= precaution_tip());
    let mut short_command = command.clone();
    short_command.append(" -c");
    let mut short = "short variant: ".to_owned();
    short.append(italic(short_command.as_str()).as_str());
    let mut long_command = command;
    long_command.append(" --create");
    let mut long = "long variant: ".to_owned();
    long.append(italic(long_command.as_str()).as_str());
    let mut tips: Vec<String> = Vec::new();
    tips.push(precaution);
    tips.push(short);
    tips.push(long);
    assert(texts(tips@) =~= already_exists_tips_spec(texts(arguments@), api_key@));
    tips
}

/// What went wrong while a configuration was written.
#[allow(inconsistent_fields)]
#[derive(Debug, PartialEq, Eq)]
pub enum GenerateError {
    /// The directory that is to hold the file could not be created.
    CreateParent { parent: String, cause: String },
    /// The file could not be opened; `already_exists` where it is there
    /// and was not to be overwritten.
    Open { path: String, already_exists: bool, cause: String },
    /// The configuration could not be encoded.
    Serialize { target: Target, cause: String },
    /// The configuration could not be written.
    Write { target: Target, cause: String },
    /// The closing line feed could not be written to standard output.
    NewLine { cause: String },
}

/// What to say of a target that could not be written to.
pub open spec fn write_context(target: Target) -> Seq<char> {
    match target {
        Target::File { path, .. } => "failed to write to file "@ + bold_text(path@),
        Target::Stdout => "failed to write to "@ + bold_text("stdout"@),
    }
}

impl GenerateError {
    /// The chain of what failed, outermost stage first, without the
    /// cause itself.
    pub open spec fn spec_contexts(&self) -> Seq<Seq<char>> {
        match self {
            GenerateError::CreateParent { parent, .. } => seq![
                "failed to create parent directory "@ + bold_text(parent@),
            ],
            GenerateError::Open { path, .. } => seq!["failed to open path "@ + bold_text(path@)],
            GenerateError::Serialize { target, .. } => seq![
                write_context(*target),
                "failed to serialize config"@,
            ],
            GenerateError::Write { target, .. } => seq![
                write_context(*target),
                "failed to write config"@,
            ],
            GenerateError::NewLine { .. } => seq![
                "failed to write new line into "@ + bold_text("stdout"@),
            ],
        }
    }

    /// Whether the user is to be told how to overwrite the file.
    pub open spec fn spec_wants_tips(&self) -> bool {
        self matches GenerateError::Open { already_exists: true, .. }
    }

    /// Whether the user is to be told how to overwrite the file: where it
    /// could not be opened because it is there, and only there.
    pub fn wants_tips(&self) -> (result: bool)
        ensures
            result == self.spec_wants_tips(),
    {
        match self {
            GenerateError::Open { already_exists, .. } => *already_exists,
            _ => false,
        }
    }

    /// Says which stages failed, outermost first, with paths in bold.
    pub fn contexts(&self) -> (result: Vec<String>)
        ensures
            texts(result@) == self.spec_contexts(),
    {
        let mut out: Vec<String> = Vec::new();
        match self {
            GenerateError::CreateParent { parent, .. } => {
                let mut context = "failed to create parent directory ".to_owned();
                context.append(bold(parent.as_str()).as_str());
                out.push(context);
            },
            GenerateError::Open { path, .. } => {
                let mut context = "failed to open path ".to_owned();
                context.append(bold(path.as_str()).as_str());
                out.push(context);
            },
            GenerateError::Serialize { target, .. } => {
                out.push(write_failure(target));
                out.push("failed to serialize config".to_owned());
            },
            GenerateError::Write { target, .. } => {
                out.push(write_failure(target));
                out.push("failed to write config".to_owned());
            },
            GenerateError::NewLine { .. } => {
                let mut context = "failed to write new line into ".to_owned();
                context.append(bold("stdout").as_str());
                out.push(context);
            },
        }
        assert(texts(out@) =~= self.spec_contexts());
        out
    }
}

fn write_failure(target: &Target) -> (result: String)
    ensures
        result@ == write_context(*target),
{
    match target {
        Target::File { path, .. } => {
            let mut context = "failed to write to file ".to_owned();
            context.append(bold(path.as_str()).as_str());
            context
        },
        Target::Stdout => {
            let mut context = "failed to write to ".to_owned();
            context.append(bold("stdout").as_str());
            context
        },
    }
}

/// The warning that the directory of the file is created.
pub open spec fn parent_warning_text(parent: Seq<char>) -> Seq<char> {
    "parent directory "@ + bold_text(parent) + " does not exist, creating it"@
}

/// Warns that the directory which is to hold the file is not there and
/// is created.
pub fn parent_warning(parent: &str) -> (result: String)
    ensures
        result@ == parent_warning_text(parent@),
{
    let mut warning = "parent directory ".to_owned();
    warning.append(bold(parent).as_str());
    warning.append(" does not exist, creating it");
    assert(warning@ =~= parent_warning_text(parent@));
    warning
}

/// What to tell once the configuration is written.
pub open spec fn generated_lines(target: Target) -> Seq<Seq<char>> {
    match target {
        Target::File { path, .. } => seq!["generated config file at "@ + bold_text(path@)],
        Target::Stdout => Seq::empty(),
    }
}

/// Says where the configuration was written, if to a file. Standard
/// output speaks for itself.
pub fn generated(target: &Target) -> (result: Vec<String>)
    ensures
        texts(result@) == generated_lines(*target),
{
    let mut out: Vec<String> = Vec::new();
    match target {
        Target::File { path, .. } => {
            let mut line = "generated config file at ".to_owned();
            line.append(bold(path.as_str()).as_str());
            out.push(line);
        },
        Target::Stdout => {},
    }
    assert(texts(out@) =~= generated_lines(*target));
    out
}

} // verus!
