//! Platforms, the release assets that each one installs, and where they are
//! downloaded from and placed.
use vstd::prelude::*;
use vstd::string::*;
use crate::version::Version;

verus! {

/// The Windows toolchain that a binary was built with.
#[derive(Clone, Copy, Debug, PartialEq, Eq, Structural)]
pub enum Toolchain {
    Msvc,
    Gnu,
}

/// The operating system being installed on.
#[derive(Clone, Copy, Debug, PartialEq, Eq, Structural)]
pub enum Platform {
    Linux,
    Windows,
}

/// The name of seaside's configuration file.
pub const CONFIG_NAME: &'static str = "Seaside.toml";

/// The address of a release asset: the download location of tag `v<version>`,
/// then the asset's name.
pub open spec fn release_url(version: Seq<char>, asset: Seq<char>) -> Seq<char> {
    "https://github.com/RosieTheGhostie/seaside/releases/download/v"@ + version + "/"@ + asset
}

/// The URL from which `asset_name` of release `version` is downloaded.
pub fn generate_release_asset_url(version: &Version, asset_name: &str) -> (r: String)
    ensures
        r@ == release_url(version.text(), asset_name@),
{
    let mut url = String::from_str("https://github.com/RosieTheGhostie/seaside/releases/download/v");
    let text = version.to_text();
    url.append(text.as_str());
    url.append("/");
    url.append(asset_name);
    url
}

/// The name of the binary asset for a platform.
pub open spec fn binary_asset_name(platform: Platform, toolchain: Toolchain) -> Seq<char> {
    match platform {
        Platform::Linux => "x86_64-unknown-linux-gnu-seaside"@,
        Platform::Windows => match toolchain {
            Toolchain::Msvc => "x86_64-pc-windows-msvc-seaside.exe"@,
            Toolchain::Gnu => "x86_64-pc-windows-gnu-seaside.exe"@,
        },
    }
}

/// The directory that holds the installed binary.
pub open spec fn binary_directory(platform: Platform) -> Seq<char> {
    match platform {
        Platform::Linux => "/usr/local/bin"@,
        Platform::Windows => "C:\\ProgramData\\seaside"@,
    }
}

/// Where the installed binary lives.
pub open spec fn binary_path(platform: Platform) -> Seq<char> {
    match platform {
        Platform::Linux => "/usr/local/bin/seaside"@,
        Platform::Windows => "C:\\ProgramData\\seaside\\seaside.exe"@,
    }
}

/// The release asset that holds the binary for `platform`; the toolchain
/// matters on Windows only.
pub fn binary_asset(platform: Platform, toolchain: Toolchain) -> (r: &'static str)
    ensures
        r@ == binary_asset_name(platform, toolchain),
{
    match platform {
        Platform::Linux => "x86_64-unknown-linux-gnu-seaside",
        Platform::Windows => match toolchain {
            Toolchain::Msvc => "x86_64-pc-windows-msvc-seaside.exe",
            Toolchain::Gnu => "x86_64-pc-windows-gnu-seaside.exe",
        },
    }
}

/// The directory that the binary is installed into.
pub fn binary_dir(platform: Platform) -> (r: &'static str)
    ensures
        r@ == binary_directory(platform),
{
    match platform {
        Platform::Linux => "/usr/local/bin",
        Platform::Windows => "C:\\ProgramData\\seaside",
    }
}

/// The path that the binary is installed at.
pub fn binary_file(platform: Platform) -> (r: &'static str)
    ensures
        r@ == binary_path(platform),
{
    match platform {
        Platform::Linux => "/usr/local/bin/seaside",
        Platform::Windows => "C:\\ProgramData\\seaside\\seaside.exe",
    }
}

} // verus!
