use vstd::prelude::*;

use crate::path::{join, path_join};
use crate::platform::{get_sys_app_data_dir, platform_root, Environment};

verus! {

/// What a failure is, as the contracts speak of it.
pub enum Failure {
    /// A required environment variable is missing; its name.
    MissingVar(Seq<char>),
    /// The file system refused an operation; its message.
    Io(Seq<char>),
    /// The working directory could not be read; the message.
    NoCurrentDir(Seq<char>),
}

/// What can go wrong while locating the data directory.
#[derive(Debug, Clone)]
pub enum AppDataError {
    /// A required environment variable is not set; holds its name.
    EnvVarNotFound(String),
    /// The file system refused an operation; holds its message.
    IoError(String),
    /// The current working directory could not be read; holds the message.
    CurrentDirError(String),
}

impl AppDataError {
    /// The error with its text seen as characters.
    pub open spec fn failure(self) -> Failure {
        match self {
            AppDataError::EnvVarNotFound(v) => Failure::MissingVar(v@),
            AppDataError::IoError(m) => Failure::Io(m@),
            AppDataError::CurrentDirError(m) => Failure::NoCurrentDir(m@),
        }
    }

    /// The error in words.
    pub fn message(&self) -> (r: String)
        ensures
            r@ == match self {
                AppDataError::EnvVarNotFound(v) => "Environment variable "@ + v@ + " not found"@,
                AppDataError::IoError(m) => "IO error: "@ + m@,
                AppDataError::CurrentDirError(m) => "Failed to get current directory: "@ + m@,
            },
    {
        match self {
            AppDataError::EnvVarNotFound(v) => {
                let r = "Environment variable ".to_string().concat(v.as_str());
                r.concat(" not found")
            },
            AppDataError::IoError(m) => "IO error: ".to_string().concat(m.as_str()),
            AppDataError::CurrentDirError(m) => "Failed to get current directory: ".to_string().concat(
                m.as_str(),
            ),
        }
    }

    /// A path result, seen as a path and a failure.
    pub open spec fn outcome(r: Result<String, AppDataError>) -> Result<Seq<char>, Failure> {
        match r {
            Ok(p) => Ok(p@),
            Err(e) => Err(e.failure()),
        }
    }
}

/// Declares `std::io::Error`, an opaque value here, so that an I/O failure can
/// be turned into `AppDataError::IoError` with its `Display` text.
#[verifier::external_type_specification]
#[verifier::external_body]
pub struct ExIoError(std::io::Error);

impl From<std::io::Error> for AppDataError {
    fn from(err: std::io::Error) -> (r: AppDataError)
        ensures
            r matches AppDataError::IoError(m) && vstd::string::to_string_from_display_ensures::<
                std::io::Error,
            >(&err, m),
    {
        AppDataError::IoError(err.to_string())
    }
}

impl vstd::std_specs::convert::FromSpecImpl<std::io::Error> for AppDataError {
    /// The message of an I/O error is its `Display` text, which vstd states
    /// through `to_string_from_display_ensures` rather than as a value, so
    /// `from` states its result in its own `ensures`.
    open spec fn obeys_from_spec() -> bool {
        false
    }

    open spec fn from_spec(v: std::io::Error) -> AppDataError {
        AppDataError::IoError(arbitrary())
    }
}

/// Where an application keeps its data: its name, used as a subdirectory of
/// the platform's data root, and whether a `data` directory under the working
/// directory is to be used instead.
#[derive(Debug, Clone)]
pub struct AppData {
    pub app_name: String,
    pub force_local: bool,
}

impl PartialEq for AppData {
    fn eq(&self, other: &AppData) -> (r: bool) {
        self.force_local == other.force_local && self.app_name == other.app_name
    }
}

impl Eq for AppData {}

impl vstd::std_specs::cmp::PartialEqSpecImpl for AppData {
    open spec fn obeys_eq_spec() -> bool {
        true
    }

    open spec fn eq_spec(&self, other: &AppData) -> bool {
        self.app_name@ == other.app_name@ && self.force_local == other.force_local
    }
}

/// The `data` directory under the working directory `cwd`.
pub open spec fn local_dir(cwd: Seq<char>) -> Seq<char> {
    path_join(cwd, "data"@)
}

impl AppData {
    /// The directory that the data goes to, given the working directory (or
    /// why it could not be read), whether `cwd/data` exists, and the
    /// environment: an existing `cwd/data` always wins; else it is used when
    /// forced; else the application's subdirectory of the platform root.
    pub open spec fn data_dir(
        self,
        cwd: Result<Seq<char>, Seq<char>>,
        local_exists: bool,
        env: Environment,
    ) -> Result<Seq<char>, Failure> {
        match cwd {
            Err(m) => Err(Failure::NoCurrentDir(m)),
            Ok(c) => if local_exists || self.force_local {
                Ok(local_dir(c))
            } else {
                match platform_root(env) {
                    Ok(root) => Ok(path_join(root, self.app_name@)),
                    Err(f) => Err(f),
                }
            },
        }
    }

    /// `data_dir` where the directories in `existing` are those that exist.
    pub open spec fn data_dir_among(
        self,
        cwd: Result<Seq<char>, Seq<char>>,
        existing: Set<Seq<char>>,
        env: Environment,
    ) -> Result<Seq<char>, Failure> {
        let local_exists = match cwd {
            Ok(c) => existing.contains(local_dir(c)),
            Err(_) => false,
        };
        self.data_dir(cwd, local_exists, env)
    }

    /// Resolving is idempotent: once the directory that a resolution gave has
    /// been made to exist, resolving again in the same working directory and
    /// environment gives the same outcome, and its directory needs no
    /// creating.
    pub proof fn lemma_resolve_twice(
        self,
        cwd: Result<Seq<char>, Seq<char>>,
        existing: Set<Seq<char>>,
        env: Environment,
    )
        ensures
            ({
                let first = self.data_dir_among(cwd, existing, env);
                let after = match first {
                    Ok(p) => existing.insert(p),
                    Err(_) => existing,
                };
                &&& self.data_dir_among(cwd, after, env) == first
                &&& first matches Ok(p) ==> after.contains(p)
            }),
    {
    }

    /// A location in the platform's data root, under `app_name`.
    pub fn new(app_name: &str) -> (r: Self)
        ensures
            r.app_name@ == app_name@,
            !r.force_local,
    {
        AppData { app_name: app_name.to_string(), force_local: false }
    }

    /// A location named `app_name`, local to the working directory when
    /// `force_local` holds.
    pub fn with_force_local(app_name: &str, force_local: bool) -> (r: Self)
        ensures
            r.app_name@ == app_name@,
            r.force_local == force_local,
    {
        AppData { app_name: app_name.to_string(), force_local }
    }

    /// The location for a package: named after it where its name is known,
    /// else unnamed and forced local, so that nothing lands in a shared
    /// system directory.
    pub fn from_package_name(package_name: Option<&str>) -> (r: Self)
        ensures
            package_name matches Some(n) ==> r.app_name@ == n@ && !r.force_local,
            package_name is None ==> r.app_name@.len() == 0 && r.force_local,
    {
        match package_name {
            Some(n) => AppData::new(n),
            None => {
                proof {
                    reveal_strlit("");
                }
                AppData::with_force_local("", true)
            },
        }
    }

    /// The `data` directory under the working directory `cwd`.
    pub fn local_data_dir(cwd: &str) -> (r: String)
        ensures
            r@ == local_dir(cwd@),
    {
        join(cwd, "data")
    }

    /// Decides the data directory from the working directory (or the message
    /// of why it could not be read), whether `cwd/data` exists, and the
    /// environment. The directory is not created here: the caller makes sure
    /// that an `Ok` path exists.
    pub fn resolve_data_dir(
        &self,
        cwd: Result<String, String>,
        local_exists: bool,
        env: &Environment,
    ) -> (r: Result<String, AppDataError>)
        ensures
            AppDataError::outcome(r) == self.data_dir(
                match cwd { Ok(c) => Ok(c@), Err(m) => Err(m@) },
                local_exists,
                *env,
            ),
            // an existing local directory wins, forced or not
            cwd matches Ok(c) ==> (local_exists ==> (r matches Ok(p) && p@ == local_dir(c@))),
            // forced local needs no environment variable
            cwd matches Ok(c) ==> (self.force_local ==> (r matches Ok(p) && p@ == local_dir(c@))),
            // otherwise the application's subdirectory of the platform root
            cwd is Ok && !local_exists && !self.force_local ==> (match platform_root(*env) {
                Ok(root) => (r matches Ok(p) && p@ == path_join(root, self.app_name@)),
                Err(f) => (r matches Err(e) && e.failure() == f),
            }),
            cwd matches Err(m) ==> (r matches Err(e) && e.failure() == Failure::NoCurrentDir(m@)),
    {
        match cwd {
            Err(m) => Err(AppDataError::CurrentDirError(m)),
            Ok(c) => {
                if local_exists || self.force_local {
                    Ok(AppData::local_data_dir(c.as_str()))
                } else {
                    match get_sys_app_data_dir(env) {
                        Ok(root) => Ok(join(root.as_str(), self.app_name.as_str())),
                        Err(e) => Err(e),
                    }
                }
            },
        }
    }

    /// The path of `file_name` inside the data directory, given the outcome
    /// of making sure that directory exists; a failure passes through. The
    /// file itself is neither checked nor created.
    pub fn get_file_path(data_dir: Result<String, AppDataError>, file_name: &str) -> (r: Result<
        String,
        AppDataError,
    >)
        ensures
            AppDataError::outcome(r) == match AppDataError::outcome(data_dir) {
                Ok(d) => Ok(path_join(d, file_name@)),
                Err(f) => Err(f),
            },
    {
        match data_dir {
            Ok(d) => Ok(join(d.as_str(), file_name)),
            Err(e) => Err(e),
        }
    }
}

} // verus!
