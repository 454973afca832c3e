//! Severity levels of spans and events.

use vstd::prelude::*;

verus! {

/// How serious a span or an event is, from the most verbose (`TRACE`) to the
/// most severe (`ERROR`).
#[derive(Debug, PartialEq, Eq, Clone, Copy, Hash)]
pub enum Level {
    /// Very low priority, often extremely verbose, information.
    TRACE,
    /// Lower priority information.
    DEBUG,
    /// Useful information.
    INFO,
    /// Hazardous situations.
    WARN,
    /// Very serious errors.
    ERROR,
}

impl Level {
    /// Position of the level on the scale: 0 for `TRACE` up to 4 for `ERROR`.
    pub open spec fn severity(self) -> nat {
        match self {
            Level::TRACE => 0,
            Level::DEBUG => 1,
            Level::INFO => 2,
            Level::WARN => 3,
            Level::ERROR => 4,
        }
    }

    /// Whether a filter set to `self` lets `level` through: a level passes
    /// when it is at least as severe as the filter.
    pub open spec fn admits(self, level: Level) -> bool {
        self.severity() <= level.severity()
    }

    /// The upper-case name the level is printed with.
    pub open spec fn label(self) -> Seq<char> {
        match self {
            Level::TRACE => "TRACE"@,
            Level::DEBUG => "DEBUG"@,
            Level::INFO => "INFO"@,
            Level::WARN => "WARN"@,
            Level::ERROR => "ERROR"@,
        }
    }

    /// The console style the level's name is printed in.
    pub open spec fn style(self) -> Seq<char> {
        match self {
            Level::TRACE => "color: dodgerblue; background: #444"@,
            Level::DEBUG => "color: lawngreen; background: #444"@,
            Level::INFO => "color: whitesmoke; background: #444"@,
            Level::WARN => "color: orange; background: #444"@,
            Level::ERROR => "color: red; background: #444"@,
        }
    }

    /// Position of the level on the scale, as a machine integer.
    pub fn rank(&self) -> (rank: u8)
        ensures
            rank == self.severity(),
    {
        match self {
            Level::TRACE => 0,
            Level::DEBUG => 1,
            Level::INFO => 2,
            Level::WARN => 3,
            Level::ERROR => 4,
        }
    }

    /// Tells whether a filter set to `self` lets `level` through.
    pub fn allows(&self, level: Level) -> (allowed: bool)
        ensures
            allowed == self.admits(level),
    {
        self.rank() <= level.rank()
    }

    /// The upper-case name of the level.
    pub fn as_str(&self) -> (name: &'static str)
        ensures
            name@ == self.label(),
    {
        match self {
            Level::TRACE => "TRACE",
            Level::DEBUG => "DEBUG",
            Level::INFO => "INFO",
            Level::WARN => "WARN",
            Level::ERROR => "ERROR",
        }
    }

    /// The style string handed to a styled console for this level: a fixed
    /// foreground colour per level, all on the same dark background.
    pub fn console_style(&self) -> (style: &'static str)
        ensures
            style@ == self.style(),
    {
        match self {
            Level::TRACE => "color: dodgerblue; background: #444",
            Level::DEBUG => "color: lawngreen; background: #444",
            Level::INFO => "color: whitesmoke; background: #444",
            Level::WARN => "color: orange; background: #444",
            Level::ERROR => "color: red; background: #444",
        }
    }
}

} // verus!
