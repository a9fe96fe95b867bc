//! Log levels and their textual names.

use vstd::prelude::*;
use crate::text::{lowercase_of, str_eq, to_lowercase};

verus! {

/// Severity threshold of the log output, from the most to the least verbose.
#[derive(Debug, Clone, Copy, PartialEq, Eq, Structural)]
pub enum LogLevel {
    Trace,
    Debug,
    Info,
    Warn,
    Error,
}

/// Answer to a request that changes the log level.
#[derive(Debug, Clone)]
pub struct LogLevelResponse {
    pub success: bool,
    pub message: String,
    pub current_level: LogLevel,
}

impl LogLevel {
    /// The lowercase name of the level.
    pub open spec fn name(self) -> Seq<char> {
        match self {
            LogLevel::Trace => "trace"@,
            LogLevel::Debug => "debug"@,
            LogLevel::Info => "info"@,
            LogLevel::Warn => "warn"@,
            LogLevel::Error => "error"@,
        }
    }

    /// The level that a lowercase name stands for, if any.
    pub open spec fn of_name(s: Seq<char>) -> Option<LogLevel> {
        if s == "trace"@ {
            Some(LogLevel::Trace)
        } else if s == "debug"@ {
            Some(LogLevel::Debug)
        } else if s == "info"@ {
            Some(LogLevel::Info)
        } else if s == "warn"@ {
            Some(LogLevel::Warn)
        } else if s == "error"@ {
            Some(LogLevel::Error)
        } else {
            None
        }
    }

    pub fn as_str(&self) -> (r: &'static str)
        ensures
            r@ == self.name(),
    {
        match self {
            LogLevel::Trace => "trace",
            LogLevel::Debug => "debug",
            LogLevel::Info => "info",
            LogLevel::Warn => "warn",
            LogLevel::Error => "error",
        }
    }

    /// Reads a name that is already in lowercase.
    pub fn from_lowercase(s: &str) -> (r: Option<LogLevel>)
        ensures
            r == Self::of_name(s@),
    {
        if str_eq(s, "trace") {
            Some(LogLevel::Trace)
        } else if str_eq(s, "debug") {
            Some(LogLevel::Debug)
        } else if str_eq(s, "info") {
            Some(LogLevel::Info)
        } else if str_eq(s, "warn") {
            Some(LogLevel::Warn)
        } else if str_eq(s, "error") {
            Some(LogLevel::Error)
        } else {
            None
        }
    }

    /// Reads a name in any letter case.
    pub fn from_str(s: &str) -> (r: Option<LogLevel>)
        ensures
            r == Self::of_name(lowercase_of(s@)),
    {
        let lower = to_lowercase(s);
        Self::from_lowercase(lower.as_str())
    }

    /// Every level is read back from its own name.
    pub proof fn lemma_name_round_trip(level: LogLevel)
        ensures
            Self::of_name(level.name()) == Some(level),
    {
        reveal_strlit("trace");
        reveal_strlit("debug");
        reveal_strlit("info");
        reveal_strlit("warn");
        reveal_strlit("error");
        assert("trace"@.len() == 5 && "debug"@.len() == 5 && "error"@.len() == 5);
        assert("info"@.len() == 4 && "warn"@.len() == 4);
        assert("trace"@[0] == 't' && "debug"@[0] == 'd' && "error"@[0] == 'e');
        assert("info"@[0] == 'i' && "warn"@[0] == 'w');
    }
}

} // verus!
