use vstd::prelude::*;

verus! {

/// The alert level of the monitor, totally ordered:
/// `NoWarning < Low < Medium < High` (colder readings give higher levels).
#[derive(Clone, Copy, Debug, PartialEq, Eq, Structural)]
pub enum WarningLevel {
    NoWarning,
    Low,
    Medium,
    High,
}

impl WarningLevel {
    /// Rank of the level under the total order `NoWarning < Low < Medium < High`.
    pub open spec fn sev(self) -> nat {
        match self {
            WarningLevel::NoWarning => 0,
            WarningLevel::Low => 1,
            WarningLevel::Medium => 2,
            WarningLevel::High => 3,
        }
    }

    /// Executable rank, agreeing with `sev`.
    pub fn severity(&self) -> (r: u8)
        ensures
            r as nat == self.sev(),
    {
        match self {
            WarningLevel::NoWarning => 0,
            WarningLevel::Low => 1,
            WarningLevel::Medium => 2,
            WarningLevel::High => 3,
        }
    }
}

} // verus!
