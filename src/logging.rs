//! How much the installer tells about its progress.
use vstd::prelude::*;

verus! {

/// A level of detail, from the most talkative.
#[derive(Clone, Copy, Debug, PartialEq, Eq, Structural)]
pub enum LogLevel {
    Debug,
    Info,
    Warn,
}

pub open spec fn rank(level: LogLevel) -> int {
    match level {
        LogLevel::Debug => 0,
        LogLevel::Info => 1,
        LogLevel::Warn => 2,
    }
}

impl LogLevel {
    /// A message of level `message` is shown at this level when it is at
    /// least as important.
    pub fn shows(self, message: LogLevel) -> (r: bool)
        ensures
            r == (rank(self) <= rank(message)),
    {
        match (self, message) {
            (LogLevel::Debug, _) => true,
            (LogLevel::Info, LogLevel::Debug) => false,
            (LogLevel::Info, _) => true,
            (LogLevel::Warn, LogLevel::Warn) => true,
            (LogLevel::Warn, _) => false,
        }
    }
}

impl Default for LogLevel {
    fn default() -> (r: LogLevel)
        ensures
            r == LogLevel::Info,
    {
        LogLevel::Info
    }
}

} // verus!
