//! The ordered set of log severities handed through to the callback.
//!
//! Severities form the usual ordered set, `Error` being the most severe and
//! `Trace` the least. The bridge never filters by severity — that is the
//! logging facade's business — it only passes the record's severity through
//! verbatim, so all this module fixes is the order, through each severity's
//! rank.

use vstd::prelude::*;

verus! {

/// A log record's severity, from most severe (`Error`) to least (`Trace`).
#[derive(Clone, Copy, Debug, PartialEq, Eq, Structural)]
pub enum Severity {
    Error,
    Warn,
    Info,
    Debug,
    Trace,
}

/// The rank of a severity: `1` for the most severe (`Error`) up to `5` for
/// the least (`Trace`). A lower rank means a more severe record.
pub open spec fn spec_rank(s: Severity) -> u8 {
    match s {
        Severity::Error => 1,
        Severity::Warn => 2,
        Severity::Info => 3,
        Severity::Debug => 4,
        Severity::Trace => 5,
    }
}

impl Severity {
    /// This severity's position in the order, per [`spec_rank`].
    pub fn rank(&self) -> (r: u8)
        ensures
            r == spec_rank(*self),
            1 <= r <= 5,
    {
        match self {
            Severity::Error => 1,
            Severity::Warn => 2,
            Severity::Info => 3,
            Severity::Debug => 4,
            Severity::Trace => 5,
        }
    }

    /// Whether this severity is at least as severe as `other`, that is,
    /// whether its rank is no greater.
    pub fn at_least_as_severe_as(&self, other: &Severity) -> (r: bool)
        ensures
            r == (spec_rank(*self) <= spec_rank(*other)),
    {
        self.rank() <= other.rank()
    }
}

} // verus!
