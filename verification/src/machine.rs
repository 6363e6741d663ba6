use vstd::prelude::*;
use crate::level::WarningLevel;
use crate::reading::Reading;

verus! {

/// The level a reading classifies to, by the fixed cold-weather
/// thresholds, coldest first: at most 0 degrees gives `High`, at most 1
/// gives `Medium`, at most 2 gives `Low`, anything warmer gives
/// `NoWarning`.  Boundary values fall into the colder bucket.
pub open spec fn spec_classify(r: Reading) -> WarningLevel {
    if r.le_int(0) {
        WarningLevel::High
    } else if r.le_int(1) {
        WarningLevel::Medium
    } else if r.le_int(2) {
        WarningLevel::Low
    } else {
        WarningLevel::NoWarning
    }
}

/// The next level from a current level and a reading: a reading of at
/// least 5 degrees resets to `NoWarning`; otherwise the level rises to
/// the reading's class when that is strictly higher, and stays put when
/// it is not (the ratchet).
pub open spec fn spec_next(current: WarningLevel, r: Reading) -> WarningLevel {
    if r.ge_int(5) {
        WarningLevel::NoWarning
    } else {
        let target = spec_classify(r);
        if target.sev() > current.sev() {
            target
        } else {
            current
        }
    }
}

/// Classify one reading against the fixed thresholds.
pub fn determine_warning_level(reading: &Reading) -> (level: WarningLevel)
    requires
        reading.wf(),
    ensures
        level == spec_classify(*reading),
{
    if reading.is_le_nat(0) {
        WarningLevel::High
    } else if reading.is_le_nat(1) {
        WarningLevel::Medium
    } else if reading.is_le_nat(2) {
        WarningLevel::Low
    } else {
        WarningLevel::NoWarning
    }
}

/// One step of the warning-level machine.
pub fn next(current: WarningLevel, reading: &Reading) -> (level: WarningLevel)
    requires
        reading.wf(),
    ensures
        level == spec_next(current, *reading),
{
    if reading.is_ge_nat(5) {
        WarningLevel::NoWarning
    } else {
        let target = determine_warning_level(reading);
        if target.severity() > current.severity() {
            target
        } else {
            current
        }
    }
}

/// Ordering invariant: short of the reset for a reading of at least 5
/// degrees, one step never lowers the level.
pub proof fn lemma_next_never_downgrades(current: WarningLevel, r: Reading)
    requires
        !r.ge_int(5),
    ensures
        spec_next(current, r).sev() >= current.sev(),
{
}

/// Ratchet: two readings that both classify no higher than the current
/// level leave the level exactly where it was.
pub proof fn lemma_ratchet(current: WarningLevel, r1: Reading, r2: Reading)
    requires
        !r1.ge_int(5),
        !r2.ge_int(5),
        spec_classify(r1).sev() <= current.sev(),
        spec_classify(r2).sev() <= current.sev(),
    ensures
        spec_next(current, r1) == current,
        spec_next(current, r2) == current,
        spec_next(current, r1) == spec_next(current, r2),
{
}

/// Reset: a reading of at least 5 degrees yields `NoWarning` from every
/// current level.
pub proof fn lemma_reset(current: WarningLevel, r: Reading)
    requires
        r.ge_int(5),
    ensures
        spec_next(current, r) == WarningLevel::NoWarning,
{
}

} // verus!
