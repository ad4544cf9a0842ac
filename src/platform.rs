use vstd::prelude::*;

use crate::app_data::{AppDataError, Failure};
use crate::path::{join, path_join};

verus! {

/// The operating-system family whose conventions decide the data root.
#[derive(Debug, Clone, Copy, PartialEq, Eq, Structural)]
pub enum Platform {
    Windows,
    MacOs,
    Linux,
}

/// The environment variables that the data root is read from, each `None`
/// where it is not set, and the platform whose convention applies.
#[derive(Debug, Clone)]
pub struct Environment {
    pub platform: Platform,
    pub xdg_data_home: Option<String>,
    pub home: Option<String>,
    pub appdata: Option<String>,
}

/// The per-user data root of the platform, or the variable(s) found missing.
pub open spec fn platform_root(env: Environment) -> Result<Seq<char>, Failure> {
    match env.platform {
        Platform::Windows => match env.appdata {
            Some(a) => Ok(a@),
            None => Err(Failure::MissingVar("APPDATA"@)),
        },
        Platform::MacOs => match env.home {
            Some(h) => Ok(path_join(h@, "Library/Application Support"@)),
            None => Err(Failure::MissingVar("HOME"@)),
        },
        Platform::Linux => match env.xdg_data_home {
            Some(x) => Ok(x@),
            None => match env.home {
                Some(h) => Ok(path_join(h@, ".local/share"@)),
                None => Err(Failure::MissingVar("XDG_DATA_HOME and HOME"@)),
            },
        },
    }
}

/// The platform's conventional root for application data, without creating it:
/// `APPDATA` on Windows, `HOME/Library/Application Support` on macOS, and on
/// Linux `XDG_DATA_HOME`, else `HOME/.local/share`.
pub fn get_sys_app_data_dir(env: &Environment) -> (r: Result<String, AppDataError>)
    ensures
        AppDataError::outcome(r) == platform_root(*env),
{
    match env.platform {
        Platform::Windows => match &env.appdata {
            Some(a) => Ok(a.clone()),
            None => Err(AppDataError::EnvVarNotFound("APPDATA".to_string())),
        },
        Platform::MacOs => match &env.home {
            Some(h) => Ok(join(h.as_str(), "Library/Application Support")),
            None => Err(AppDataError::EnvVarNotFound("HOME".to_string())),
        },
        Platform::Linux => match &env.xdg_data_home {
            Some(x) => Ok(x.clone()),
            None => match &env.home {
                Some(h) => Ok(join(h.as_str(), ".local/share")),
                None => Err(AppDataError::EnvVarNotFound("XDG_DATA_HOME and HOME".to_string())),
            },
        },
    }
}

} // verus!
