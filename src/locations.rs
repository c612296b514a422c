//! Where the configuration file lives.
use vstd::prelude::*;
use vstd::string::*;
use crate::errors::ErrorKind;
use crate::release::{CONFIG_NAME, Platform};

verus! {

/// A character that separates path components on `platform`.
pub open spec fn is_separator(c: char, platform: Platform) -> bool {
    c == '/' || (platform == Platform::Windows && c == '\\')
}

/// The separator that joining a path puts in.
pub open spec fn separator(platform: Platform) -> char {
    match platform {
        Platform::Linux => '/',
        Platform::Windows => '\\',
    }
}

/// The relative path `name` below `dir`: a separator goes between them
/// unless `dir` is empty or already ends in one.
pub open spec fn join_path(dir: Seq<char>, name: Seq<char>, platform: Platform) -> Seq<char> {
    if dir.len() == 0 {
        name
    } else if is_separator(dir.last(), platform) {
        dir + name
    } else {
        dir + seq![separator(platform)] + name
    }
}

/// The configuration directory of `user` under `/home`, used when the
/// installer runs on Linux on behalf of that user.
pub open spec fn home_config_dir(user: Seq<char>) -> Seq<char> {
    join_path(join_path("/home"@, user, Platform::Linux), ".config/seaside"@, Platform::Linux)
}

/// The relative path `name` below `dir`, as `join_path` says.
pub fn join(dir: &str, name: &str, platform: Platform) -> (r: String)
    ensures
        r@ == join_path(dir@, name@, platform),
{
    let n = dir.unicode_len();
    let mut out = String::from_str(dir);
    if n > 0 {
        let last = dir.get_char(n - 1);
        let at_separator = last == '/' || (platform == Platform::Windows && last == '\\');
        if !at_separator {
            proof {
                reveal_strlit("/");
                reveal_strlit("\\");
            }
            match platform {
                Platform::Linux => out.append("/"),
                Platform::Windows => out.append("\\"),
            }
        }
    }
    out.append(name);
    out
}

/// The configuration directory of `user`: `/home/<user>/.config/seaside`.
pub fn dir(user: &str) -> (r: String)
    ensures
        r@ == home_config_dir(user@),
{
    let home = join("/home", user, Platform::Linux);
    join(home.as_str(), ".config/seaside", Platform::Linux)
}

/// The configuration file inside the configuration directory `config_dir`.
pub fn path(config_dir: &str, platform: Platform) -> (r: String)
    ensures
        r@ == join_path(config_dir@, CONFIG_NAME@, platform),
{
    join(config_dir, CONFIG_NAME, platform)
}

/// Relies on `directories::ProjectDirs::from` and `ProjectDirs::config_dir`:
/// the per-user configuration directory of an application, or `None` where no
/// home directory is known (or the path is not UTF-8). It depends on the
/// environment, so nothing is stated of it.
#[verifier::external_body]
fn project_config_dir(qualifier: &str, organization: &str, application: &str) -> (r: Option<
    String,
>) {
    match directories::ProjectDirs::from(qualifier, organization, application) {
        Some(dirs) => dirs.config_dir().to_str().map(String::from),
        None => None,
    }
}

/// The configuration directory: under `/home/<user>` when running on Linux
/// for `sudo_user`, else the platform's per-user configuration directory of
/// the application `seaside`, or `NotFound` when there is none.
pub fn get_config_dir(platform: Platform, sudo_user: Option<&str>) -> (r: Result<
    String,
    ErrorKind,
>)
    ensures
        platform == Platform::Linux && sudo_user is Some ==> r is Ok && r->Ok_0@
            == home_config_dir(sudo_user->0@),
        r is Err ==> r == Err::<String, ErrorKind>(ErrorKind::NotFound),
{
    if let (Platform::Linux, Some(user)) = (platform, sudo_user) {
        return Ok(dir(user));
    }
    match project_config_dir("", "", "seaside") {
        Some(d) => Ok(d),
        None => Err(ErrorKind::NotFound),
    }
}

/// The configuration file, inside the directory that `get_config_dir` gives.
pub fn get_config_path(platform: Platform, sudo_user: Option<&str>) -> (r: Result<
    String,
    ErrorKind,
>)
    ensures
        platform == Platform::Linux && sudo_user is Some ==> r is Ok && r->Ok_0@ == join_path(
            home_config_dir(sudo_user->0@),
            CONFIG_NAME@,
            platform,
        ),
        r is Ok ==> exists|d: Seq<char>| r->Ok_0@ == join_path(d, CONFIG_NAME@, platform),
        r is Err ==> r == Err::<String, ErrorKind>(ErrorKind::NotFound),
{
    match get_config_dir(platform, sudo_user) {
        Ok(d) => Ok(path(d.as_str(), platform)),
        Err(e) => Err(e),
    }
}

} // verus!
