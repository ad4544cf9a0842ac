//! Locates the directory where an application keeps its persistent data:
//! a `data` directory under the working directory, or the application's
//! subdirectory of the platform's per-user data root.

mod app_data;
mod path;
mod platform;

pub use app_data::{AppData, AppDataError, Failure};
pub use path::path_join;
pub use platform::{get_sys_app_data_dir, Environment, Platform};
