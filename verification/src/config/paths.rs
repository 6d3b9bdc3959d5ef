//! Where the configuration lives on this machine.
//!
//! The places are found once, by asking `directories` for the project's
//! directories, and kept in a [`Paths`] value that the caller owns.

use vstd::prelude::*;

verus! {

/// Makes `directories::ProjectDirs` known as a type whose values are
/// carried from one call to the next and never looked into.
#[verifier::external_type_specification]
#[verifier::external_body]
pub struct ExProjectDirs(directories::ProjectDirs);

/// The reverse domain under which the program's directories are filed.
pub const QUALIFIER: &'static str = "com";

/// The organization under which the program's directories are filed.
pub const ORGANIZATION: &'static str = "ALinuxPerson";

/// The program's name, after which its directories are named.
pub const APPLICATION: &'static str = "synthtext";

/// Name of the configuration file within the configuration directory.
pub const FILE_NAME: &'static str = "config.json";

/// The project's directories could not be determined: the machine names
/// no home directory for the user.
#[derive(Clone, Copy, Debug, PartialEq, Eq, Structural)]
pub struct NoProjectDirectories;

/// The configuration directory and the configuration file in it, once
/// they were found.
#[derive(Debug, PartialEq, Eq)]
pub struct Paths {
    found: Option<(String, String)>,
}

/// Calls `ProjectDirs::from`. Not verified, and nothing is claimed of the
/// outcome: it depends on the user's environment, and is `None` where no
/// home directory can be determined.
#[verifier::external_body]
fn project_dirs(qualifier: &str, organization: &str, application: &str) -> (result: Option<
    directories::ProjectDirs,
>) {
    directories::ProjectDirs::from(qualifier, organization, application)
}

/// Calls `ProjectDirs::config_dir` and gives the path as text. Not
/// verified, and nothing is claimed of the text.
#[verifier::external_body]
fn config_dir(dirs: &directories::ProjectDirs) -> (result: String) {
    dirs.config_dir().to_string_lossy().into_owned()
}

/// `name` is the name of one file and nothing more: it holds no
/// separator and no colon, so that it has no root and no prefix on any
/// platform, and it is not one of the two names that refer to
/// directories.
pub open spec fn is_file_name(name: Seq<char>) -> bool {
    &&& forall|i: int|
        0 <= i < name.len() ==> #[trigger] name[i] != '/' && name[i] != '\\' && name[i] != ':'
    &&& name != seq!['.']
    &&& name != seq!['.', '.']
}

/// `directory` begins with the prefix that, on some platforms, makes a
/// path be taken verbatim. Such a path is written anew when it is
/// extended.
pub open spec fn is_verbatim(directory: Seq<char>) -> bool {
    seq!['\\', '\\', '?', '\\'].is_prefix_of(directory)
}

/// `location` is `directory` extended by the file `name`: it ends with
/// the name, and it begins with the directory, unless that is a verbatim
/// path. What separates the two is the platform's matter.
pub open spec fn extends(location: Seq<char>, directory: Seq<char>, name: Seq<char>) -> bool {
    &&& name.is_suffix_of(location)
    &&& !is_verbatim(directory) ==> directory.is_prefix_of(location)
}

/// Calls `Path::join` and gives the path as text. Not verified: the
/// contract restates, for a file name without root or prefix, that the
/// directory is extended by the name. Where the directory has a verbatim
/// prefix the path is written anew, and only its end is claimed.
#[verifier::external_body]
fn join(directory: &str, name: &str) -> (result: String)
    requires
        is_file_name(name@),
    ensures
        extends(result@, directory@, name@),
{
    std::path::Path::new(directory).join(name).to_string_lossy().into_owned()
}

/// The name of the configuration file is the name of one file.
proof fn lemma_file_name()
    ensures
        is_file_name(FILE_NAME@),
{
    reveal_strlit("config.json");
    let name = FILE_NAME@;
    assert(name.len() == 11);
    assert(name[0] == 'c' && name[1] == 'o' && name[2] == 'n' && name[3] == 'f' && name[4] == 'i'
        && name[5] == 'g' && name[6] == '.' && name[7] == 'j' && name[8] == 's' && name[9] == 'o'
        && name[10] == 'n');
}

impl Paths {
    #[verifier::type_invariant]
    spec fn file_in_directory(self) -> bool {
        self.found matches Some((directory, location)) ==> extends(
            location@,
            directory@,
            FILE_NAME@,
        )
    }

    /// Whether the places were found already.
    pub closed spec fn is_initialized(&self) -> bool {
        self.found is Some
    }

    /// The configuration directory.
    pub closed spec fn spec_directory(&self) -> Seq<char>
        recommends
            self.is_initialized(),
    {
        match self.found {
            Some((directory, _)) => directory@,
            None => Seq::empty(),
        }
    }

    /// The configuration file.
    pub closed spec fn spec_location(&self) -> Seq<char>
        recommends
            self.is_initialized(),
    {
        match self.found {
            Some((_, location)) => location@,
            None => Seq::empty(),
        }
    }

    /// Paths that are yet to be found.
    pub fn new() -> (result: Paths)
        ensures
            !result.is_initialized(),
    {
        Paths { found: None }
    }

    /// Whether the places were found already.
    pub fn initialized(&self) -> (result: bool)
        ensures
            result == self.is_initialized(),
    {
        self.found.is_some()
    }
}

/// Finds the places, unless they were found before: then nothing is asked
/// again and nothing changes. Where they cannot be found, `paths` stays
/// as it was. The configuration file, once found, is the configuration
/// directory extended by [`FILE_NAME`].
pub fn initialize(paths: &mut Paths) -> (result: Result<(), NoProjectDirectories>)
    ensures
        old(paths).is_initialized() ==> result is Ok && *final(paths) == *old(paths),
        result is Ok <==> final(paths).is_initialized(),
        result is Err ==> *final(paths) == *old(paths),
        final(paths).is_initialized() ==> extends(
            final(paths).spec_location(),
            final(paths).spec_directory(),
            FILE_NAME@,
        ),
{
    proof {
        use_type_invariant(&*paths);
    }
    if paths.found.is_none() {
        match project_dirs(QUALIFIER, ORGANIZATION, APPLICATION) {
            Some(dirs) => {
                let directory = config_dir(&dirs);
                proof {
                    lemma_file_name();
                }
                let location = join(directory.as_str(), FILE_NAME);
                paths.found = Some((directory, location));
            },
            None => {
                return Err(NoProjectDirectories);
            },
        }
    }
    Ok(())
}

/// The configuration directory.
pub fn directory(paths: &Paths) -> (result: &str)
    requires
        paths.is_initialized(),
    ensures
        result@ == paths.spec_directory(),
        extends(paths.spec_location(), result@, FILE_NAME@),
{
    proof {
        use_type_invariant(paths);
    }
    match &paths.found {
        Some(found) => found.0.as_str(),
        None => "",
    }
}

/// The configuration file: the configuration directory extended by
/// [`FILE_NAME`].
pub fn location(paths: &Paths) -> (result: &str)
    requires
        paths.is_initialized(),
    ensures
        result@ == paths.spec_location(),
        extends(result@, paths.spec_directory(), FILE_NAME@),
{
    proof {
        use_type_invariant(paths);
    }
    match &paths.found {
        Some(found) => found.1.as_str(),
        None => "",
    }
}

} // verus!
