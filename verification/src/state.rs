use vstd::prelude::*;
use crate::level::WarningLevel;
use crate::machine::{next, spec_next};
use crate::reading::Reading;
use crate::timestamp::Timestamp;

verus! {

/// The persisted record of the monitor: the current warning level and
/// the instant of the last alert.  `last_email_sent` is a historical
/// mark; a reset to `NoWarning` never clears it.
#[derive(Clone, Copy, Debug, PartialEq, Eq, Structural)]
pub struct MonitorState {
    pub current_warning_level: WarningLevel,
    pub last_email_sent: Option<Timestamp>,
}

/// An escalation alert to hand to the alert sink, carrying the level
/// escalated to.
#[derive(Clone, Copy, Debug, PartialEq, Eq, Structural)]
pub struct AlertEvent {
    pub level: WarningLevel,
}

impl MonitorState {
    /// Any timestamp on record is a genuine one.
    pub open spec fn wf(self) -> bool {
        self.last_email_sent matches Some(t) ==> t.wf()
    }

    /// The fresh state used when no snapshot exists yet.
    pub fn new() -> (s: Self)
        ensures
            s.current_warning_level == WarningLevel::NoWarning,
            s.last_email_sent is None,
            s.wf(),
    {
        MonitorState { current_warning_level: WarningLevel::NoWarning, last_email_sent: Option::None }
    }

    /// One day's classification step: move the level as the warning
    /// machine says, and when that is a strict escalation, produce the
    /// alert and mark its time.  A reset or an unchanged level alerts
    /// nobody and leaves the mark alone.
    pub fn daily_check(&mut self, reading: &Reading, now: &Timestamp) -> (alert: Option<AlertEvent>)
        requires
            old(self).wf(),
            reading.wf(),
            now.wf(),
        ensures
            final(self).current_warning_level == spec_next(
                old(self).current_warning_level,
                *reading,
            ),
            alert is Some <==> spec_next(old(self).current_warning_level, *reading).sev() > old(
                self,
            ).current_warning_level.sev(),
            alert matches Some(e) ==> e.level == final(self).current_warning_level,
            alert is Some ==> final(self).last_email_sent == Some(*now),
            alert is None ==> final(self).last_email_sent == old(self).last_email_sent,
            final(self).wf(),
    {
        let old_level = self.current_warning_level;
        let new_level = next(old_level, reading);
        let alert = maybe_alert(old_level, new_level);
        self.current_warning_level = new_level;
        if alert.is_some() {
            self.last_email_sent = Some(*now);
        }
        alert
    }
}

/// Decide whether a transition warrants an alert: exactly the strict
/// escalations do.  A reset or an unchanged level never alerts.
pub fn maybe_alert(old_level: WarningLevel, new_level: WarningLevel) -> (alert: Option<AlertEvent>)
    ensures
        alert is Some <==> new_level.sev() > old_level.sev(),
        alert matches Some(e) ==> e.level == new_level,
{
    if new_level.severity() > old_level.severity() {
        Some(AlertEvent { level: new_level })
    } else {
        Option::None
    }
}

} // verus!
