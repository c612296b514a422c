//! Installs, updates and uninstalls seaside.
//!
//! The library holds the decisions: where the release assets live, how an
//! existing configuration file gets its version line rewritten, how the
//! per-user `PATH` value gains or loses a directory, how a yes/no answer is
//! read, and the order of steps of an install or an uninstall. Performing the
//! steps (downloads, the file system, the registry, the terminal) is left to
//! the caller.
pub mod args;
pub mod config;
pub mod errors;
pub mod install;
pub mod locations;
pub mod logging;
pub mod prompt;
pub mod release;
pub mod uninstall;
pub mod user_path;
pub mod version;

pub use args::{CmdArgs, Command, InstallArgs, UninstallArgs};
pub use config::update_config_version;
pub use errors::ErrorKind;
pub use install::{Action, Event, InstallSession, Question, Stage};
pub use locations::{dir, get_config_dir, get_config_path, path};
pub use logging::LogLevel;
pub use prompt::parse_answer;
pub use release::{generate_release_asset_url, Platform, Toolchain};
pub use uninstall::{uninstall, Removal};
pub use user_path::{add_to_path, remove_from_path};
pub use version::Version;
