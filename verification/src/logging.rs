//! Log levels, and how the count of `-v` flags selects one.
//!
//! The level found here is the default. Whoever installs the logger lets a
//! filter given in the environment take precedence over it.

use vstd::prelude::*;

verus! {

/// The most verbose level of records that is let through.
#[derive(Clone, Copy, Debug, PartialEq, Eq, Structural)]
pub enum LogLevel {
    /// Warnings and errors only.
    Warn,
    /// Informational records too.
    Info,
    /// Debugging records too.
    Debug,
    /// Everything.
    Trace,
}

impl LogLevel {
    /// The level for a verbosity count: none is `Warn`, one is `Info`, two is
    /// `Debug`, three or more is `Trace`.
    pub open spec fn of_verbosity(verbosity: u8) -> LogLevel {
        if verbosity == 0 {
            LogLevel::Warn
        } else if verbosity == 1 {
            LogLevel::Info
        } else if verbosity == 2 {
            LogLevel::Debug
        } else {
            LogLevel::Trace
        }
    }

    /// How much a level lets through, as a number: a higher rank lets through
    /// all that a lower one does.
    pub open spec fn rank(self) -> nat {
        match self {
            LogLevel::Warn => 0,
            LogLevel::Info => 1,
            LogLevel::Debug => 2,
            LogLevel::Trace => 3,
        }
    }

    /// The filter directive that selects this level.
    pub open spec fn directive_text(self) -> Seq<char> {
        match self {
            LogLevel::Warn => "warn"@,
            LogLevel::Info => "info"@,
            LogLevel::Debug => "debug"@,
            LogLevel::Trace => "trace"@,
        }
    }

    /// The level selected by `verbosity` repetitions of the verbose flag.
    pub fn from_verbosity(verbosity: u8) -> (level: LogLevel)
        ensures
            level == LogLevel::of_verbosity(verbosity),
    {
        match verbosity {
            0 => LogLevel::Warn,
            1 => LogLevel::Info,
            2 => LogLevel::Debug,
            _ => LogLevel::Trace,
        }
    }

    /// The filter directive that selects this level, as the logger reads it.
    pub fn directive(self) -> (word: &'static str)
        ensures
            word@ == self.directive_text(),
    {
        match self {
            LogLevel::Warn => "warn",
            LogLevel::Info => "info",
            LogLevel::Debug => "debug",
            LogLevel::Trace => "trace",
        }
    }
}

/// Repeating the verbose flag never makes the log quieter: the rank of the
/// level is the count itself up to three, and stays at three from there on.
pub proof fn lemma_verbosity_rank(verbosity: u8, more: u8)
    requires
        verbosity <= more,
    ensures
        LogLevel::of_verbosity(verbosity).rank() <= LogLevel::of_verbosity(more).rank(),
        LogLevel::of_verbosity(verbosity).rank() == if verbosity < 3 {
            verbosity as nat
        } else {
            3
        },
{
}

} // verus!
