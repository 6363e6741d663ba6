use vstd::prelude::*;
use crate::codec::{decode_state, encode_state, spec_decode_state, spec_encode_state};
use crate::errors::MonitorError;
use crate::machine::spec_next;
use crate::reading::Reading;
use crate::state::{AlertEvent, MonitorState};
use crate::timestamp::Timestamp;

verus! {

/// Where one run stands, load to persist.  A failure at any stage turns
/// to `Notifying`, from which exactly one admin notification is
/// attempted before the run ends.
#[derive(Clone, Copy, Debug, PartialEq, Eq, Structural)]
pub enum RunPhase {
    Idle,
    StateLoaded,
    Scraped,
    Classified,
    Notifying,
    Done,
}

/// The one outside step the caller must perform next.
#[derive(Clone, Debug, PartialEq, Eq)]
pub enum RunAction {
    LoadSnapshot,
    Scrape,
    SendAlert(AlertEvent),
    Persist(Vec<u8>),
    NotifyAdmin(MonitorError),
    Exit(bool),
}

/// What the performed step came to.
#[derive(Debug, PartialEq, Eq)]
pub enum RunEvent {
    NoSnapshot,
    SnapshotRead(Vec<u8>),
    LoadFailed,
    ScrapeFinished(Result<Reading, MonitorError>),
    AlertDelivered(bool),
    PersistFinished(bool),
    AdminNotified(bool),
}

/// One whole run as a state machine: load the snapshot, scrape, apply
/// the warning-level step, send the alert exactly when the level
/// escalated, persist the new state unconditionally, and on any failure
/// attempt one admin notification.  A failed alert delivery never blocks
/// the persist.
#[derive(Clone, Debug)]
pub struct RunMachine {
    pub phase: RunPhase,
    pub state: MonitorState,
    pub alert: Option<AlertEvent>,
    pub error: Option<MonitorError>,
    pub now: Timestamp,
    pub failed: bool,
}

impl RunMachine {
    /// The machine's invariant: the held state and clock stay genuine,
    /// an alert is pending exactly in `Scraped`, and a failure is being
    /// routed exactly in `Notifying` and in a failed `Done`.
    pub open spec fn inv(self) -> bool {
        &&& self.state.wf()
        &&& self.now.wf()
        &&& (self.phase == RunPhase::Scraped ==> self.alert is Some)
        &&& (self.phase == RunPhase::Notifying ==> self.error is Some && self.failed)
        &&& (self.phase == RunPhase::Done && self.failed ==> self.error is Some)
        &&& (self.phase == RunPhase::Idle || self.phase == RunPhase::StateLoaded || self.phase
            == RunPhase::Scraped || self.phase == RunPhase::Classified ==> !self.failed)
    }

    /// How many events the machine can still take.
    pub open spec fn measure(self) -> nat {
        match self.phase {
            RunPhase::Idle => 5,
            RunPhase::StateLoaded => 4,
            RunPhase::Scraped => 3,
            RunPhase::Classified => 2,
            RunPhase::Notifying => 1,
            RunPhase::Done => 0,
        }
    }

    /// Which events the pending action can come back with.  A scraped
    /// reading arrives well-formed, and a scrape failure with one of the
    /// scrape path's own error kinds, as the scrape session guarantees.
    pub open spec fn expects(self, e: RunEvent) -> bool {
        match e {
            RunEvent::NoSnapshot => self.phase == RunPhase::Idle,
            RunEvent::SnapshotRead(_) => self.phase == RunPhase::Idle,
            RunEvent::LoadFailed => self.phase == RunPhase::Idle,
            RunEvent::ScrapeFinished(r) => self.phase == RunPhase::StateLoaded && (r matches Ok(rd)
                ==> rd.wf()) && (r matches Err(k) ==> (k == MonitorError::SessionStart || k
                == MonitorError::Scrape || k == MonitorError::Parse || k == MonitorError::Config)),
            RunEvent::AlertDelivered(_) => self.phase == RunPhase::Scraped,
            RunEvent::PersistFinished(_) => self.phase == RunPhase::Classified,
            RunEvent::AdminNotified(_) => self.phase == RunPhase::Notifying,
        }
    }

    /// A fresh run at the given clock moment.
    pub fn start(now: Timestamp) -> (m: RunMachine)
        requires
            now.wf(),
        ensures
            m.inv(),
            m.phase == RunPhase::Idle,
            m.state == (MonitorState {
                current_warning_level: crate::level::WarningLevel::NoWarning,
                last_email_sent: Option::<Timestamp>::None,
            }),
            m.alert is None,
            m.error is None,
            m.now == now,
            !m.failed,
    {
        RunMachine {
            phase: RunPhase::Idle,
            state: MonitorState::new(),
            alert: Option::None,
            error: Option::None,
            now,
            failed: false,
        }
    }

    /// The outside step to perform next: load in `Idle`, scrape in
    /// `StateLoaded`, the pending alert in `Scraped`, the encoded new
    /// snapshot in `Classified`, the admin notification in `Notifying`,
    /// and the exit code when done.
    pub fn next_action(&self) -> (a: RunAction)
        requires
            self.inv(),
        ensures
            self.phase == RunPhase::Idle ==> a == RunAction::LoadSnapshot,
            self.phase == RunPhase::StateLoaded ==> a == RunAction::Scrape,
            self.phase == RunPhase::Scraped ==> (a matches RunAction::SendAlert(ev) && Some(ev)
                == self.alert),
            self.phase == RunPhase::Classified ==> (a matches RunAction::Persist(v) && v@
                == spec_encode_state(self.state)),
            self.phase == RunPhase::Notifying ==> (a matches RunAction::NotifyAdmin(k) && Some(k)
                == self.error),
            self.phase == RunPhase::Done ==> a == RunAction::Exit(!self.failed),
    {
        match self.phase {
            RunPhase::Idle => RunAction::LoadSnapshot,
            RunPhase::StateLoaded => RunAction::Scrape,
            RunPhase::Scraped => {
                match &self.alert {
                    Some(ev) => RunAction::SendAlert(*ev),
                    Option::None => {
                        proof {
                            assert(false);
                        }
                        RunAction::Scrape
                    },
                }
            },
            RunPhase::Classified => RunAction::Persist(encode_state(&self.state)),
            RunPhase::Notifying => {
                match &self.error {
                    Some(k) => RunAction::NotifyAdmin(*k),
                    Option::None => {
                        proof {
                            assert(false);
                        }
                        RunAction::Scrape
                    },
                }
            },
            RunPhase::Done => RunAction::Exit(!self.failed),
        }
    }

    /// Feed back what the performed step came to, and move the run.
    pub fn on_event(&mut self, e: RunEvent)
        requires
            old(self).inv(),
            old(self).expects(e),
        ensures
            final(self).inv(),
            final(self).measure() < old(self).measure(),
            final(self).now == old(self).now,
            // Loading: an absent snapshot gives the fresh state, a read
            // record gives exactly what it denotes, and anything else
            // fails the run as a persistence error.
            e == RunEvent::NoSnapshot ==> final(self).phase == RunPhase::StateLoaded && final(self).state == (MonitorState {
                current_warning_level: crate::level::WarningLevel::NoWarning,
                last_email_sent: Option::<Timestamp>::None,
            }),
            e matches RunEvent::SnapshotRead(bytes) ==> match spec_decode_state(bytes@) {
                Some(s) => final(self).phase == RunPhase::StateLoaded && final(self).state == s,
                Option::None => final(self).phase == RunPhase::Notifying && final(self).error
                    == Some(MonitorError::Persistence) && final(self).state == old(self).state,
            },
            e == RunEvent::LoadFailed ==> final(self).phase == RunPhase::Notifying && final(self).error == Some(MonitorError::Persistence) && final(self).state == old(self).state,
            // Scraping: a reading drives the warning-level step; the run
            // alerts exactly on a strict escalation, and marks the alert
            // time exactly then.
            e matches RunEvent::ScrapeFinished(r) ==> match r {
                Ok(rd) => {
                    &&& final(self).state.current_warning_level == spec_next(
                        old(self).state.current_warning_level,
                        rd,
                    )
                    &&& (final(self).phase == RunPhase::Scraped <==> spec_next(
                        old(self).state.current_warning_level,
                        rd,
                    ).sev() > old(self).state.current_warning_level.sev())
                    &&& (final(self).phase == RunPhase::Scraped || final(self).phase
                        == RunPhase::Classified)
                    &&& (final(self).phase == RunPhase::Scraped ==> final(self).alert == Some(
                        AlertEvent { level: final(self).state.current_warning_level },
                    ) && final(self).state.last_email_sent == Some(old(self).now))
                    &&& (final(self).phase == RunPhase::Classified ==> final(self).state.last_email_sent == old(self).state.last_email_sent)
                },
                Err(k) => final(self).phase == RunPhase::Notifying && final(self).error == Some(k)
                    && final(self).state == old(self).state,
            },
            // Alert delivery: succeed or fail, the run goes on to
            // persist the already-updated state.
            e is AlertDelivered ==> final(self).phase == RunPhase::Classified && final(self).state
                == old(self).state,
            // Persisting: success ends the run well; failure routes to
            // the admin.
            e == RunEvent::PersistFinished(true) ==> final(self).phase == RunPhase::Done && !final(self).failed && final(self).state == old(self).state,
            e == RunEvent::PersistFinished(false) ==> final(self).phase == RunPhase::Notifying
                && final(self).error == Some(MonitorError::Persistence) && final(self).state
                == old(self).state,
            // The admin notification is attempted once; its own failure
            // is not escalated further.
            e is AdminNotified ==> final(self).phase == RunPhase::Done && final(self).failed
                && final(self).error == old(self).error && final(self).state == old(self).state,
    {
        match self.phase {
            RunPhase::Idle => {
                match e {
                    RunEvent::NoSnapshot => {
                        self.state = MonitorState::new();
                        self.phase = RunPhase::StateLoaded;
                    },
                    RunEvent::SnapshotRead(bytes) => {
                        match decode_state(&bytes) {
                            Ok(s) => {
                                self.state = s;
                                self.phase = RunPhase::StateLoaded;
                            },
                            Err(k) => {
                                self.error = Some(k);
                                self.failed = true;
                                self.phase = RunPhase::Notifying;
                            },
                        }
                    },
                    _ => {
                        self.error = Some(MonitorError::Persistence);
                        self.failed = true;
                        self.phase = RunPhase::Notifying;
                    },
                }
            },
            RunPhase::StateLoaded => {
                match e {
                    RunEvent::ScrapeFinished(r) => {
                        match r {
                            Ok(rd) => {
                                let now = self.now;
                                let alert = self.state.daily_check(&rd, &now);
                                match alert {
                                    Some(ev) => {
                                        self.alert = Some(ev);
                                        self.phase = RunPhase::Scraped;
                                    },
                                    Option::None => {
                                        self.phase = RunPhase::Classified;
                                    },
                                }
                            },
                            Err(k) => {
                                self.error = Some(k);
                                self.failed = true;
                                self.phase = RunPhase::Notifying;
                            },
                        }
                    },
                    _ => {
                        proof {
                            assert(false);
                        }
                    },
                }
            },
            RunPhase::Scraped => {
                self.phase = RunPhase::Classified;
            },
            RunPhase::Classified => {
                match e {
                    RunEvent::PersistFinished(true) => {
                        self.phase = RunPhase::Done;
                    },
                    _ => {
                        self.error = Some(MonitorError::Persistence);
                        self.failed = true;
                        self.phase = RunPhase::Notifying;
                    },
                }
            },
            RunPhase::Notifying => {
                self.phase = RunPhase::Done;
            },
            RunPhase::Done => {
                proof {
                    assert(false);
                }
            },
        }
    }
}

} // verus!
