use seaside_installer::errors::tolerate_missing;
use seaside_installer::uninstall::Removal;
use seaside_installer::{
    dir, get_config_dir, get_config_path, path, remove_from_path, uninstall, update_config_version,
    Action, ErrorKind, Event, InstallArgs, InstallSession, Platform, Question, Stage, Toolchain,
    UninstallArgs, Version,
};

const BASE: &str = "https://github.com/RosieTheGhostie/seaside/releases/download/";

fn args(version: Version, yes: bool, toolchain: Toolchain, update: bool) -> InstallArgs {
    InstallArgs { version, yes, toolchain, update }
}

fn expect_check(action: Option<Action>, expected: &str) {
    match action {
        Some(Action::CheckFile { path }) => assert_eq!(path, expected),
        other => panic!("expected a check of {expected}, got {other:?}"),
    }
}

fn expect_download(action: Option<Action>, url: &str, directory: &str, destination: &str) {
    match action {
        Some(Action::Download { url: u, directory: d, destination: p }) => {
            assert_eq!(u, url);
            assert_eq!(d, directory);
            assert_eq!(p, destination);
        }
        other => panic!("expected a download of {url}, got {other:?}"),
    }
}

fn expect_question(action: Option<Action>, expected: Question) {
    match action {
        Some(Action::Ask { question }) => assert_eq!(question, expected),
        other => panic!("expected question {expected:?}, got {other:?}"),
    }
}

fn expect_finish(action: Option<Action>) {
    assert!(matches!(action, Some(Action::Finish)), "{action:?}");
}

#[test]
fn fresh_linux_install() {
    let config_dir = dir("alice");
    assert_eq!(config_dir, "/home/alice/.config/seaside");
    let mut s = InstallSession::new(
        args(Version::new(1, 2, 3), true, Toolchain::Msvc, false),
        Platform::Linux,
        config_dir.clone(),
    );
    expect_check(s.step(Event::Begin), "/usr/local/bin/seaside");
    expect_download(
        s.step(Event::Exists(false)),
        &format!("{BASE}v1.2.3/x86_64-unknown-linux-gnu-seaside"),
        "/usr/local/bin",
        "/usr/local/bin/seaside",
    );
    expect_check(s.step(Event::Completed), "/home/alice/.config/seaside/Seaside.toml");
    expect_download(
        s.step(Event::Exists(false)),
        &format!("{BASE}v1.2.3/Seaside.toml"),
        "/home/alice/.config/seaside",
        "/home/alice/.config/seaside/Seaside.toml",
    );
    expect_finish(s.step(Event::Completed));
    assert_eq!(s.stage, Stage::Finished);
    assert!(s.step(Event::Completed).is_none());
}

#[test]
fn overwrite_declined_version_update_accepted() {
    let mut s = InstallSession::new(
        args(Version::new(1, 2, 3), false, Toolchain::Msvc, false),
        Platform::Linux,
        "/home/bob/.config/seaside".to_string(),
    );
    expect_check(s.step(Event::Begin), "/usr/local/bin/seaside");
    expect_question(s.step(Event::Exists(true)), Question::ReplaceBinary);
    expect_check(s.step(Event::Answer(false)), "/home/bob/.config/seaside/Seaside.toml");
    expect_question(s.step(Event::Exists(true)), Question::ReplaceConfig);
    expect_question(s.step(Event::Answer(false)), Question::UpdateConfigVersion);
    match s.step(Event::Answer(true)) {
        Some(Action::UpdateConfig { path }) => {
            assert_eq!(path, "/home/bob/.config/seaside/Seaside.toml")
        }
        other => panic!("expected a config update, got {other:?}"),
    }
    let before = "[general]\nversion = \"1.0.0\" # keep\ntheme = \"dark\"\n";
    let after = update_config_version(before, s.version());
    assert_eq!(after, "[general]\nversion = \"1.2.3\" # keep\ntheme = \"dark\"\n");
    expect_finish(s.step(Event::Completed));
}

#[test]
fn declined_everything() {
    let mut s = InstallSession::new(
        args(Version::new(1, 2, 3), false, Toolchain::Msvc, false),
        Platform::Linux,
        "/cfg".to_string(),
    );
    s.step(Event::Begin);
    s.step(Event::Exists(true));
    s.step(Event::Answer(false));
    s.step(Event::Exists(true));
    s.step(Event::Answer(false));
    expect_finish(s.step(Event::Answer(false)));
}

#[test]
fn replace_accepted_after_question() {
    let mut s = InstallSession::new(
        args(Version::new(2, 0, 0), false, Toolchain::Msvc, false),
        Platform::Linux,
        "/cfg".to_string(),
    );
    s.step(Event::Begin);
    expect_question(s.step(Event::Exists(true)), Question::ReplaceBinary);
    expect_download(
        s.step(Event::Answer(true)),
        &format!("{BASE}v2.0.0/x86_64-unknown-linux-gnu-seaside"),
        "/usr/local/bin",
        "/usr/local/bin/seaside",
    );
    expect_check(s.step(Event::Completed), "/cfg/Seaside.toml");
    expect_question(s.step(Event::Exists(true)), Question::ReplaceConfig);
    expect_download(
        s.step(Event::Answer(true)),
        &format!("{BASE}v2.0.0/Seaside.toml"),
        "/cfg",
        "/cfg/Seaside.toml",
    );
}

#[test]
fn windows_fresh_install_msvc() {
    let config_dir = "C:\\Users\\rosie\\AppData\\Roaming\\seaside\\config";
    let mut s = InstallSession::new(
        args(Version::new(1, 2, 3), true, Toolchain::Msvc, false),
        Platform::Windows,
        config_dir.to_string(),
    );
    expect_check(s.step(Event::Begin), "C:\\ProgramData\\seaside\\seaside.exe");
    expect_download(
        s.step(Event::Exists(false)),
        &format!("{BASE}v1.2.3/x86_64-pc-windows-msvc-seaside.exe"),
        "C:\\ProgramData\\seaside",
        "C:\\ProgramData\\seaside\\seaside.exe",
    );
    match s.step(Event::Completed) {
        Some(Action::AddToPath { directory }) => assert_eq!(directory, "C:\\ProgramData\\seaside"),
        other => panic!("expected a PATH update, got {other:?}"),
    }
    expect_check(
        s.step(Event::Completed),
        "C:\\Users\\rosie\\AppData\\Roaming\\seaside\\config\\Seaside.toml",
    );
    expect_download(
        s.step(Event::Exists(false)),
        &format!("{BASE}v1.2.3/Seaside.toml"),
        config_dir,
        "C:\\Users\\rosie\\AppData\\Roaming\\seaside\\config\\Seaside.toml",
    );
    expect_finish(s.step(Event::Completed));
    let path_value = seaside_installer::add_to_path("C:\\Windows", "C:\\ProgramData\\seaside");
    assert_eq!(path_value, Some("C:\\Windows;C:\\ProgramData\\seaside".to_string()));
}

#[test]
fn windows_gnu_asset() {
    let mut s = InstallSession::new(
        args(Version::new(1, 2, 3), true, Toolchain::Gnu, false),
        Platform::Windows,
        "C:\\cfg".to_string(),
    );
    s.step(Event::Begin);
    expect_download(
        s.step(Event::Exists(true)),
        &format!("{BASE}v1.2.3/x86_64-pc-windows-gnu-seaside.exe"),
        "C:\\ProgramData\\seaside",
        "C:\\ProgramData\\seaside\\seaside.exe",
    );
}

#[test]
fn windows_update_leaves_path_alone() {
    let mut s = InstallSession::new(
        args(Version::new(1, 2, 4), true, Toolchain::Msvc, true),
        Platform::Windows,
        "C:\\cfg".to_string(),
    );
    expect_check(s.step(Event::Begin), "C:\\ProgramData\\seaside\\seaside.exe");
    expect_download(
        s.step(Event::Exists(true)),
        &format!("{BASE}v1.2.4/x86_64-pc-windows-msvc-seaside.exe"),
        "C:\\ProgramData\\seaside",
        "C:\\ProgramData\\seaside\\seaside.exe",
    );
    expect_check(s.step(Event::Completed), "C:\\cfg\\Seaside.toml");
    let path_value = "C:\\Windows;C:\\ProgramData\\seaside";
    assert_eq!(seaside_installer::add_to_path(path_value, "C:\\ProgramData\\seaside"), None);
}

#[test]
fn unexpected_events_are_refused() {
    let mut s = InstallSession::new(
        args(Version::new(1, 0, 0), false, Toolchain::Msvc, false),
        Platform::Linux,
        "/cfg".to_string(),
    );
    assert!(s.step(Event::Completed).is_none());
    assert!(s.step(Event::Answer(true)).is_none());
    assert_eq!(s.stage, Stage::Ready);
    s.step(Event::Begin);
    assert!(s.step(Event::Begin).is_none());
    assert_eq!(s.stage, Stage::BinaryCheck);
}

#[test]
fn question_texts() {
    assert_eq!(Question::ReplaceBinary.warning(), Some("a seaside binary is already present"));
    assert_eq!(Question::ReplaceBinary.text(), "would you like to replace the existing binary?");
    assert_eq!(Question::ReplaceConfig.warning(), Some("a seaside config file is already present"));
    assert_eq!(Question::ReplaceConfig.text(), "would you like to replace the existing config?");
    assert_eq!(Question::UpdateConfigVersion.warning(), None);
    assert_eq!(
        Question::UpdateConfigVersion.text(),
        "would you like to update the config version to match?"
    );
}

#[test]
fn uninstall_keep_config_on_windows() {
    let plan = uninstall(&UninstallArgs { keep_config: true }, Platform::Windows);
    assert_eq!(plan.len(), 2);
    assert!(matches!(&plan[0], Removal::Directory { path } if path == "C:\\ProgramData\\seaside"));
    assert!(matches!(&plan[1], Removal::PathEntry { directory } if directory == "C:\\ProgramData\\seaside"));
    let after = remove_from_path("C:\\Windows;C:\\ProgramData\\seaside", "C:\\ProgramData\\seaside");
    assert_eq!(after, Some("C:\\Windows".to_string()));
}

#[test]
fn uninstall_everything_on_windows() {
    let plan = uninstall(&UninstallArgs { keep_config: false }, Platform::Windows);
    assert_eq!(plan.len(), 3);
    assert!(matches!(&plan[2], Removal::ConfigDirectory));
}

#[test]
fn uninstall_on_linux() {
    let plan = uninstall(&UninstallArgs { keep_config: false }, Platform::Linux);
    assert_eq!(plan.len(), 2);
    assert!(matches!(&plan[0], Removal::File { path } if path == "/usr/local/bin/seaside"));
    assert!(matches!(&plan[1], Removal::ConfigDirectory));
    let kept = uninstall(&UninstallArgs { keep_config: true }, Platform::Linux);
    assert_eq!(kept.len(), 1);
}

#[test]
fn uninstall_twice_tolerates_missing() {
    assert_eq!(tolerate_missing(None), Ok(true));
    assert_eq!(tolerate_missing(Some(ErrorKind::NotFound)), Ok(false));
    let first = remove_from_path("A;C:\\ProgramData\\seaside", "C:\\ProgramData\\seaside").unwrap();
    assert_eq!(remove_from_path(&first, "C:\\ProgramData\\seaside"), None);
}

#[test]
fn config_locations() {
    assert_eq!(path("/home/alice/.config/seaside", Platform::Linux), "/home/alice/.config/seaside/Seaside.toml");
    assert_eq!(path("/etc/", Platform::Linux), "/etc/Seaside.toml");
    assert_eq!(path("C:\\cfg\\", Platform::Windows), "C:\\cfg\\Seaside.toml");
    assert_eq!(path("C:/cfg/", Platform::Windows), "C:/cfg/Seaside.toml");
    assert_eq!(path("", Platform::Linux), "Seaside.toml");
    assert_eq!(get_config_dir(Platform::Linux, Some("carol")), Ok("/home/carol/.config/seaside".to_string()));
    assert_eq!(
        get_config_path(Platform::Linux, Some("carol")),
        Ok("/home/carol/.config/seaside/Seaside.toml".to_string())
    );
    match get_config_path(Platform::Windows, None) {
        Ok(p) => assert!(p.ends_with("Seaside.toml")),
        Err(e) => assert_eq!(e, ErrorKind::NotFound),
    }
}
