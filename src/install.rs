//! The install: which files to fetch, when to ask, and in what order.
//!
//! An `InstallSession` is stepped with what the caller observed (whether a
//! file exists, the user's answer, a step done) and answers with the next
//! action to perform. The binary comes first, then the configuration file.
//! A file that is absent is installed; one that is present is replaced when
//! the user said yes up front or answers yes when asked. A configuration file
//! that is kept may have its version line updated instead. A failed action
//! ends the install where it stands.
use vstd::prelude::*;
use vstd::string::*;
use crate::args::InstallArgs;
use crate::locations::{join_path, path};
use crate::release::{
    binary_asset, binary_asset_name, binary_dir, binary_directory, binary_file, binary_path,
    generate_release_asset_url, release_url, Platform, CONFIG_NAME,
};
use crate::version::Version;

verus! {

/// A question put to the user.
#[derive(Clone, Copy, Debug, PartialEq, Eq, Structural)]
pub enum Question {
    ReplaceBinary,
    ReplaceConfig,
    UpdateConfigVersion,
}

impl Question {
    /// The warning shown before the question, if any.
    pub fn warning(self) -> (r: Option<&'static str>)
        ensures
            self == Question::ReplaceBinary ==> r is Some && r->0@
                == "a seaside binary is already present"@,
            self == Question::ReplaceConfig ==> r is Some && r->0@
                == "a seaside config file is already present"@,
            self == Question::UpdateConfigVersion ==> r is None,
    {
        match self {
            Question::ReplaceBinary => Some("a seaside binary is already present"),
            Question::ReplaceConfig => Some("a seaside config file is already present"),
            Question::UpdateConfigVersion => None,
        }
    }

    /// The question itself.
    pub fn text(self) -> (r: &'static str)
        ensures
            self == Question::ReplaceBinary ==> r@
                == "would you like to replace the existing binary?"@,
            self == Question::ReplaceConfig ==> r@
                == "would you like to replace the existing config?"@,
            self == Question::UpdateConfigVersion ==> r@
                == "would you like to update the config version to match?"@,
    {
        match self {
            Question::ReplaceBinary => "would you like to replace the existing binary?",
            Question::ReplaceConfig => "would you like to replace the existing config?",
            Question::UpdateConfigVersion => "would you like to update the config version to match?",
        }
    }
}

/// What the caller reports to the session.
#[derive(Clone, Copy, Debug, PartialEq, Eq, Structural)]
pub enum Event {
    /// The install starts.
    Begin,
    /// Whether the file that was to be checked exists.
    Exists(bool),
    /// The user's answer to the question.
    Answer(bool),
    /// The download, `PATH` update or rewrite succeeded.
    Completed,
}

/// Where an install stands: each stage waits for the outcome of one action.
#[derive(Clone, Copy, Debug, PartialEq, Eq, Structural)]
pub enum Stage {
    Ready,
    BinaryCheck,
    BinaryQuestion,
    BinaryDownload,
    PathUpdate,
    ConfigCheck,
    ConfigQuestion,
    VersionQuestion,
    ConfigDownload,
    ConfigUpdate,
    Finished,
}

/// What the caller is to do next.
#[derive(Debug)]
pub enum Action {
    /// Report whether `path` exists.
    CheckFile { path: String },
    /// Show the question's warning, if any, and ask it.
    Ask { question: Question },
    /// Fetch `url`, make sure `directory` exists, and write the body to
    /// `destination`, replacing what is there.
    Download { url: String, directory: String, destination: String },
    /// Add `directory` to the per-user `PATH` (see `add_to_path`).
    AddToPath { directory: String },
    /// Rewrite the version line of the file at `path` (see
    /// `update_config_version`) to the version being installed.
    UpdateConfig { path: String },
    /// The install is complete.
    Finish,
}

/// An install in progress. `config_dir` is the configuration directory.
pub struct InstallSession {
    pub args: InstallArgs,
    pub platform: Platform,
    pub config_dir: String,
    pub stage: Stage,
}

/// The stage that follows `stage` on `event`, or `None` when the session did
/// not wait for such an event.
pub open spec fn next_stage(s: InstallSession, event: Event) -> Option<Stage> {
    match (s.stage, event) {
        (Stage::Ready, Event::Begin) => Some(Stage::BinaryCheck),
        (Stage::BinaryCheck, Event::Exists(present)) => if !present || s.args.yes {
            Some(Stage::BinaryDownload)
        } else {
            Some(Stage::BinaryQuestion)
        },
        (Stage::BinaryQuestion, Event::Answer(yes)) => if yes {
            Some(Stage::BinaryDownload)
        } else {
            Some(Stage::ConfigCheck)
        },
        (Stage::BinaryDownload, Event::Completed) => if s.platform == Platform::Windows
            && !s.args.update {
            Some(Stage::PathUpdate)
        } else {
            Some(Stage::ConfigCheck)
        },
        (Stage::PathUpdate, Event::Completed) => Some(Stage::ConfigCheck),
        (Stage::ConfigCheck, Event::Exists(present)) => if !present || s.args.yes {
            Some(Stage::ConfigDownload)
        } else {
            Some(Stage::ConfigQuestion)
        },
        (Stage::ConfigQuestion, Event::Answer(yes)) => if yes {
            Some(Stage::ConfigDownload)
        } else {
            Some(Stage::VersionQuestion)
        },
        (Stage::VersionQuestion, Event::Answer(yes)) => if yes {
            Some(Stage::ConfigUpdate)
        } else {
            Some(Stage::Finished)
        },
        (Stage::ConfigDownload, Event::Completed) => Some(Stage::Finished),
        (Stage::ConfigUpdate, Event::Completed) => Some(Stage::Finished),
        _ => None,
    }
}

/// The configuration file of a session.
pub open spec fn config_file(s: InstallSession) -> Seq<char> {
    join_path(s.config_dir@, CONFIG_NAME@, s.platform)
}

/// `a` is the action that the stage of `s` waits on.
pub open spec fn requests(s: InstallSession, a: Action) -> bool {
    match s.stage {
        Stage::Ready => false,
        Stage::BinaryCheck => match a {
            Action::CheckFile { path } => path@ == binary_path(s.platform),
            _ => false,
        },
        Stage::BinaryQuestion => a == Action::Ask { question: Question::ReplaceBinary },
        Stage::BinaryDownload => match a {
            Action::Download { url, directory, destination } => url@ == release_url(
                s.args.version.text(),
                binary_asset_name(s.platform, s.args.toolchain),
            ) && directory@ == binary_directory(s.platform) && destination@ == binary_path(
                s.platform,
            ),
            _ => false,
        },
        Stage::PathUpdate => match a {
            Action::AddToPath { directory } => directory@ == binary_directory(s.platform),
            _ => false,
        },
        Stage::ConfigCheck => match a {
            Action::CheckFile { path } => path@ == config_file(s),
            _ => false,
        },
        Stage::ConfigQuestion => a == Action::Ask { question: Question::ReplaceConfig },
        Stage::VersionQuestion => a == Action::Ask { question: Question::UpdateConfigVersion },
        Stage::ConfigDownload => match a {
            Action::Download { url, directory, destination } => url@ == release_url(
                s.args.version.text(),
                CONFIG_NAME@,
            ) && directory@ == s.config_dir@ && destination@ == config_file(s),
            _ => false,
        },
        Stage::ConfigUpdate => match a {
            Action::UpdateConfig { path } => path@ == config_file(s),
            _ => false,
        },
        Stage::Finished => a == Action::Finish,
    }
}

impl InstallSession {
    /// A session that has not begun; `config_dir` is the configuration
    /// directory (see `get_config_dir`).
    pub fn new(args: InstallArgs, platform: Platform, config_dir: String) -> (r: InstallSession)
        ensures
            r.args == args,
            r.platform == platform,
            r.config_dir == config_dir,
            r.stage == Stage::Ready,
    {
        InstallSession { args, platform, config_dir, stage: Stage::Ready }
    }

    /// The version being installed.
    pub fn version(&self) -> (r: &Version)
        ensures
            r == self.args.version,
    {
        &self.args.version
    }

    /// The action that the current stage waits on.
    fn request(&self) -> (r: Action)
        requires
            self.stage != Stage::Ready,
        ensures
            requests(*self, r),
    {
        match self.stage {
            Stage::BinaryCheck => Action::CheckFile {
                path: String::from_str(binary_file(self.platform)),
            },
            Stage::BinaryQuestion => Action::Ask { question: Question::ReplaceBinary },
            Stage::BinaryDownload => Action::Download {
                url: generate_release_asset_url(
                    &self.args.version,
                    binary_asset(self.platform, self.args.toolchain),
                ),
                directory: String::from_str(binary_dir(self.platform)),
                destination: String::from_str(binary_file(self.platform)),
            },
            Stage::PathUpdate => Action::AddToPath {
                directory: String::from_str(binary_dir(self.platform)),
            },
            Stage::ConfigCheck => Action::CheckFile {
                path: path(self.config_dir.as_str(), self.platform),
            },
            Stage::ConfigQuestion => Action::Ask { question: Question::ReplaceConfig },
            Stage::VersionQuestion => Action::Ask { question: Question::UpdateConfigVersion },
            Stage::ConfigDownload => Action::Download {
                url: generate_release_asset_url(&self.args.version, CONFIG_NAME),
                directory: String::from_str(self.config_dir.as_str()),
                destination: path(self.config_dir.as_str(), self.platform),
            },
            Stage::ConfigUpdate => Action::UpdateConfig {
                path: path(self.config_dir.as_str(), self.platform),
            },
            _ => Action::Finish,
        }
    }

    /// Takes in what the caller observed and answers with the next action;
    /// `None`, with the session unchanged, when it did not wait for `event`.
    pub fn step(&mut self, event: Event) -> (r: Option<Action>)
        ensures
            r is Some <==> next_stage(*old(self), event) is Some,
            final(self).args == old(self).args,
            final(self).platform == old(self).platform,
            final(self).config_dir == old(self).config_dir,
            r is None ==> final(self).stage == old(self).stage,
            r is Some ==> final(self).stage == next_stage(*old(self), event)->0 && requests(
                *final(self),
                r->0,
            ),
    {
        let yes = self.args.yes;
        let next = match (self.stage, event) {
            (Stage::Ready, Event::Begin) => Some(Stage::BinaryCheck),
            (Stage::BinaryCheck, Event::Exists(present)) => if !present || yes {
                Some(Stage::BinaryDownload)
            } else {
                Some(Stage::BinaryQuestion)
            },
            (Stage::BinaryQuestion, Event::Answer(answer)) => if answer {
                Some(Stage::BinaryDownload)
            } else {
                Some(Stage::ConfigCheck)
            },
            (Stage::BinaryDownload, Event::Completed) => if self.platform == Platform::Windows
                && !self.args.update {
                Some(Stage::PathUpdate)
            } else {
                Some(Stage::ConfigCheck)
            },
            (Stage::PathUpdate, Event::Completed) => Some(Stage::ConfigCheck),
            (Stage::ConfigCheck, Event::Exists(present)) => if !present || yes {
                Some(Stage::ConfigDownload)
            } else {
                Some(Stage::ConfigQuestion)
            },
            (Stage::ConfigQuestion, Event::Answer(answer)) => if answer {
                Some(Stage::ConfigDownload)
            } else {
                Some(Stage::VersionQuestion)
            },
            (Stage::VersionQuestion, Event::Answer(answer)) => if answer {
                Some(Stage::ConfigUpdate)
            } else {
                Some(Stage::Finished)
            },
            (Stage::ConfigDownload, Event::Completed) => Some(Stage::Finished),
            (Stage::ConfigUpdate, Event::Completed) => Some(Stage::Finished),
            _ => None,
        };
        match next {
            Some(stage) => {
                self.stage = stage;
                Some(self.request())
            },
            None => None,
        }
    }
}

/// The stages that wait for an answer from the user.
pub open spec fn is_question(stage: Stage) -> bool {
    stage == Stage::BinaryQuestion || stage == Stage::ConfigQuestion || stage
        == Stage::VersionQuestion
}

/// With `yes` given, an install never asks: from a stage that is no question
/// (as the first one is not), no step leads into a question.
pub proof fn lemma_yes_never_asks(s: InstallSession, event: Event)
    requires
        s.args.yes,
        !is_question(s.stage),
        next_stage(s, event) is Some,
    ensures
        !is_question(next_stage(s, event)->0),
{
}

} // verus!
