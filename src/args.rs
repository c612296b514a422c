//! What an invocation asks for.
use vstd::prelude::*;
use crate::release::Toolchain;
use crate::version::Version;

verus! {

/// An install or update of `version`.
pub struct InstallArgs {
    /// The version of seaside to install.
    pub version: Version,
    /// Replace existing files without asking.
    pub yes: bool,
    /// The toolchain whose build to install (Windows).
    pub toolchain: Toolchain,
    /// An update of an existing install: skip the steps that only a fresh
    /// install needs (Windows).
    pub update: bool,
}

/// An uninstall.
#[derive(Clone, Copy, Debug, PartialEq, Eq, Structural)]
pub struct UninstallArgs {
    /// Leave the configuration directory in place.
    pub keep_config: bool,
}

/// The two things the installer can be asked to do.
pub enum Command {
    Install(InstallArgs),
    Uninstall(UninstallArgs),
}

/// A whole invocation.
pub struct CmdArgs {
    pub command: Command,
}

} // verus!
