//! Severity levels, their names, and the minimum-level rule.
use vstd::prelude::*;
use crate::text::same_text;

verus! {

/// The severity of a record, from the most severe to the most verbose.
#[derive(Clone, Copy, Debug, PartialEq, Eq, Structural)]
pub enum Level {
    Error,
    Warn,
    Info,
    Debug,
    Trace,
}

impl Level {
    /// Verbosity: 1 for `Error` up to 5 for `Trace`.
    pub open spec fn rank(self) -> nat {
        match self {
            Level::Error => 1,
            Level::Warn => 2,
            Level::Info => 3,
            Level::Debug => 4,
            Level::Trace => 5,
        }
    }

    /// The upper-case name carried in an envelope's `level` and `@l` fields.
    pub open spec fn spec_name(self) -> Seq<char> {
        match self {
            Level::Error => "ERROR"@,
            Level::Warn => "WARN"@,
            Level::Info => "INFO"@,
            Level::Debug => "DEBUG"@,
            Level::Trace => "TRACE"@,
        }
    }

    pub fn verbosity(&self) -> (r: u8)
        ensures
            r as nat == self.rank(),
    {
        match self {
            Level::Error => 1,
            Level::Warn => 2,
            Level::Info => 3,
            Level::Debug => 4,
            Level::Trace => 5,
        }
    }

    pub fn name(&self) -> (r: &'static str)
        ensures
            r@ == self.spec_name(),
    {
        match self {
            Level::Error => "ERROR",
            Level::Warn => "WARN",
            Level::Info => "INFO",
            Level::Debug => "DEBUG",
            Level::Trace => "TRACE",
        }
    }

    /// A record of level `self` passes a filter whose minimum is `min`.
    pub open spec fn spec_passes(self, min: Level) -> bool {
        self.rank() <= min.rank()
    }

    pub fn passes(&self, min: Level) -> (r: bool)
        ensures
            r == self.spec_passes(min),
    {
        self.verbosity() <= min.verbosity()
    }
}

/// The level named by a configuration value; anything unrecognised is `Info`.
pub open spec fn spec_parse_level(s: Seq<char>) -> Level {
    if s == "error"@ {
        Level::Error
    } else if s == "warn"@ {
        Level::Warn
    } else if s == "info"@ {
        Level::Info
    } else if s == "debug"@ {
        Level::Debug
    } else if s == "trace"@ {
        Level::Trace
    } else {
        Level::Info
    }
}

pub fn parse_level(s: &str) -> (r: Level)
    ensures
        r == spec_parse_level(s@),
{
    if same_text(s, "error") {
        Level::Error
    } else if same_text(s, "warn") {
        Level::Warn
    } else if same_text(s, "info") {
        Level::Info
    } else if same_text(s, "debug") {
        Level::Debug
    } else if same_text(s, "trace") {
        Level::Trace
    } else {
        Level::Info
    }
}

/// The minimum level chosen from two optional settings: the first one that
/// is present decides, and with neither the level is `Info`.
pub open spec fn spec_get_log_level(primary: Option<Seq<char>>, fallback: Option<Seq<char>>) -> Level {
    match primary {
        Some(p) => spec_parse_level(p),
        None => match fallback {
            Some(f) => spec_parse_level(f),
            None => Level::Info,
        },
    }
}

pub fn get_log_level(primary: Option<&str>, fallback: Option<&str>) -> (r: Level)
    ensures
        r == spec_get_log_level(
            match primary { Some(p) => Some(p@), None => None },
            match fallback { Some(f) => Some(f@), None => None },
        ),
{
    match primary {
        Some(p) => parse_level(p),
        None => match fallback {
            Some(f) => parse_level(f),
            None => Level::Info,
        },
    }
}

} // verus!
