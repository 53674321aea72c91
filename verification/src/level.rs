//! Severity levels and the threshold that a filter is configured with.

use vstd::prelude::*;

verus! {

/// The severity of a span or of a log record, from the least to the most
/// severe.
#[derive(Clone, Copy, Debug, PartialEq, Eq, Structural)]
pub enum Level {
    Trace,
    Debug,
    Info,
    Warn,
    Error,
}

impl Level {
    /// The place of a level in the order of severity: 0 for `Trace`, 4 for
    /// `Error`.
    pub open spec fn rank_spec(self) -> u8 {
        match self {
            Level::Trace => 0,
            Level::Debug => 1,
            Level::Info => 2,
            Level::Warn => 3,
            Level::Error => 4,
        }
    }

    #[verifier::when_used_as_spec(rank_spec)]
    pub fn rank(self) -> (r: u8)
        ensures
            r == self.rank_spec(),
    {
        match self {
            Level::Trace => 0,
            Level::Debug => 1,
            Level::Info => 2,
            Level::Warn => 3,
            Level::Error => 4,
        }
    }

    /// The upper-case name of the level, as the console prints it.
    pub open spec fn name_spec(self) -> Seq<char> {
        match self {
            Level::Trace => "TRACE"@,
            Level::Debug => "DEBUG"@,
            Level::Info => "INFO"@,
            Level::Warn => "WARN"@,
            Level::Error => "ERROR"@,
        }
    }

    pub fn name(self) -> (r: &'static str)
        ensures
            r@ == self.name_spec(),
    {
        match self {
            Level::Trace => "TRACE",
            Level::Debug => "DEBUG",
            Level::Info => "INFO",
            Level::Warn => "WARN",
            Level::Error => "ERROR",
        }
    }
}

/// The least severity that a filter admits; `Off` admits nothing.
#[derive(Clone, Copy, Debug, PartialEq, Eq, Structural)]
pub enum Threshold {
    Off,
    AtLeast(Level),
}

impl Threshold {
    /// A level is admitted when it is at least as severe as the threshold.
    pub open spec fn admits_spec(self, level: Level) -> bool {
        match self {
            Threshold::Off => false,
            Threshold::AtLeast(least) => level.rank_spec() >= least.rank_spec(),
        }
    }

    #[verifier::when_used_as_spec(admits_spec)]
    pub fn admits(self, level: Level) -> (r: bool)
        ensures
            r == self.admits_spec(level),
    {
        match self {
            Threshold::Off => false,
            Threshold::AtLeast(least) => level.rank() >= least.rank(),
        }
    }
}

} // verus!
