//! Console reporting policy.

use vstd::prelude::*;

verus! {

/// Determines how the web console should behave.
#[derive(Debug, PartialEq, Eq, Clone, Copy)]
pub enum ConsoleConfig {
    /// Do not record to console.
    NoReporting,
    /// Record to console without colorful text.
    ReportWithoutConsoleColor,
    /// Record to console with colorful text.
    ReportWithConsoleColor,
}

impl ConsoleConfig {
    /// Whether this mode writes anything to the console.
    pub open spec fn reports(self) -> bool {
        !(self is NoReporting)
    }

    /// True if the console is reporting spans and events.
    pub fn reporting_enabled(&self) -> (enabled: bool)
        ensures
            enabled == self.reports(),
    {
        match self {
            ConsoleConfig::NoReporting => false,
            _ => true,
        }
    }
}

} // verus!
