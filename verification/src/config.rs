//! Where the settings are kept.

use vstd::prelude::*;
use directories::ProjectDirs;

verus! {

/// `directories::ProjectDirs`, the directories that the system gives a
/// program. The crate only asks it for the configuration directory.
#[verifier::external_type_specification]
#[verifier::external_body]
pub struct ExProjectDirs(directories::ProjectDirs);

/// The name of the settings file inside the configuration directory.
pub const CONFIG_FILE_NAME: &'static str = "mapleconfig.ini";

pub const QUALIFIER: &'static str = "com";

pub const ORGANIZATION: &'static str = "Maple for Plex";

pub const APPLICATION: &'static str = "Maple";

/// The section and the key under which the token is kept.
pub const TOKEN_SECTION: &'static str = "plextv";

pub const TOKEN_KEY: &'static str = "token";

/// How the settings store fails.
#[derive(Debug)]
pub enum ConfigError {
    CouldNotLoadConfig { ini_error: String },
    NoValidHome,
    CouldNotWriteConfig { ini_error: String },
}

/// What `{:?}` prints for a string: the text between double quotes, with
/// escapes wherever the standard library writes one.
pub uninterp spec fn debug_text(s: Seq<char>) -> Seq<char>;

/// `format!("{:?}", s)`: the string as `Debug` prints it.
#[verifier::external_body]
fn debug_string(s: &str) -> (r: String)
    ensures
        r@ == debug_text(s@),
{
    format!("{:?}", s)
}

impl ConfigError {
    /// The message of this failure, given how its cause is to be shown.
    pub open spec fn spec_message_with(self, cause: Seq<char>) -> Seq<char> {
        match self {
            ConfigError::CouldNotLoadConfig { .. } => "Could not load config file: "@ + cause,
            ConfigError::NoValidHome => "No valid home location could be determined."@,
            ConfigError::CouldNotWriteConfig { .. } => "Could not write config file: "@ + cause,
        }
    }

    /// The cause of this failure, where it carries one.
    pub open spec fn spec_cause(self) -> Seq<char> {
        match self {
            ConfigError::CouldNotLoadConfig { ini_error } => ini_error@,
            ConfigError::NoValidHome => Seq::empty(),
            ConfigError::CouldNotWriteConfig { ini_error } => ini_error@,
        }
    }

    /// The message of this failure: a fixed text and, where the failure
    /// carries a cause, the cause as `{:?}` prints it.
    pub open spec fn spec_message(self) -> Seq<char> {
        self.spec_message_with(debug_text(self.spec_cause()))
    }

    /// The cause of this failure, or the empty string where it carries
    /// none.
    pub fn cause(&self) -> (c: &str)
        ensures
            c@ == self.spec_cause(),
    {
        proof {
            reveal_strlit("");
            assert(""@ =~= Seq::<char>::empty());
        }
        match self {
            ConfigError::CouldNotLoadConfig { ini_error } => ini_error.as_str(),
            ConfigError::NoValidHome => "",
            ConfigError::CouldNotWriteConfig { ini_error } => ini_error.as_str(),
        }
    }

    /// The message of this failure with `cause` put where the cause goes.
    pub fn message_with(&self, cause: &str) -> (m: String)
        ensures
            m@ == self.spec_message_with(cause@),
    {
        match self {
            ConfigError::CouldNotLoadConfig { .. } => String::from_str(
                "Could not load config file: ",
            ).concat(cause),
            ConfigError::NoValidHome => String::from_str(
                "No valid home location could be determined.",
            ),
            ConfigError::CouldNotWriteConfig { .. } => String::from_str(
                "Could not write config file: ",
            ).concat(cause),
        }
    }

    /// The human-readable message of this failure.
    pub fn message(&self) -> (m: String)
        ensures
            m@ == self.spec_message(),
    {
        let shown = debug_string(self.cause());
        self.message_with(shown.as_str())
    }
}

/// `ProjectDirs::from`: the directories of a project, or nothing where the
/// system names no home directory. The answer depends on the machine and on
/// who runs the program, so nothing is stated of it.
#[verifier::external_body]
fn project_dirs(qualifier: &str, organization: &str, application: &str) -> Option<ProjectDirs> {
    ProjectDirs::from(qualifier, organization, application)
}

/// `ProjectDirs::config_dir`, as text. It depends on the machine too.
#[verifier::external_body]
fn config_dir_text(dirs: &ProjectDirs) -> String {
    dirs.config_dir().display().to_string()
}

/// The path of the settings file in the directory `dir`.
pub open spec fn config_file_path(dir: Seq<char>) -> Seq<char> {
    dir + seq!['/'] + CONFIG_FILE_NAME@
}

/// The settings file in the configuration directory `dir`; without a
/// directory there is no valid home.
pub fn config_file_in(dir: Option<String>) -> (r: Result<String, ConfigError>)
    ensures
        dir matches Some(d) ==> r matches Ok(path) && path@ == config_file_path(d@),
        dir is None ==> r == Err::<String, ConfigError>(ConfigError::NoValidHome),
{
    match dir {
        Some(d) => {
            proof {
                reveal_strlit("/");
            }
            Ok(d.concat("/").concat(CONFIG_FILE_NAME))
        },
        None => Err(ConfigError::NoValidHome),
    }
}

/// The path of this program's settings file. Which directory it lies in is
/// for the system to say; where the system names no home directory the
/// answer is `NoValidHome`.
pub fn get_config_file() -> (r: Result<String, ConfigError>)
    ensures
        r matches Ok(path) ==> exists|dir: Seq<char>| path@ == #[trigger] config_file_path(dir),
        r matches Err(e) ==> e == ConfigError::NoValidHome,
{
    let dir = match project_dirs(QUALIFIER, ORGANIZATION, APPLICATION) {
        Some(dirs) => Some(config_dir_text(&dirs)),
        None => None,
    };
    config_file_in(dir)
}

} // verus!
