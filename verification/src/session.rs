use vstd::prelude::*;
use crate::errors::MonitorError;
use crate::parse::{parse_comma_decimal, spec_parse};
use crate::reading::Reading;
use crate::timestamp::{spec_ddmmyyyy, format_ddmmyyyy, Timestamp};

verus! {

/// The values the scrape writes into the dashboard's form: the
/// configured coordinates and today's date as `DD-MM-YYYY`.
#[derive(Clone, Debug)]
pub struct ScrapeConfig {
    pub latitude: Vec<u8>,
    pub longitude: Vec<u8>,
    pub date: Vec<u8>,
}

impl ScrapeConfig {
    /// Assemble the form values from the configured coordinates and the
    /// day of the run.
    pub fn new(latitude: Vec<u8>, longitude: Vec<u8>, today: &Timestamp) -> (c: ScrapeConfig)
        requires
            today.wf(),
        ensures
            c.latitude@ == latitude@,
            c.longitude@ == longitude@,
            c.date@ == spec_ddmmyyyy(*today),
    {
        let date = format_ddmmyyyy(today);
        ScrapeConfig { latitude, longitude, date }
    }
}

/// Where one scrape stands: bring-up, the fixed interaction sequence
/// against the dashboard, then tear-down.  The tear-down phases are
/// passed on every path, so the two external resources — the driver
/// process and the browser connection — are always released.
#[derive(Clone, Copy, Debug, PartialEq, Eq, Structural)]
pub enum ScrapePhase {
    SpawnDriver,
    ConnectBrowser,
    Navigate,
    SetLatitude,
    SetLongitude,
    SetDateFrom,
    SetDateTo,
    ToggleParameter,
    TriggerUpdate,
    ReadCell,
    QuitBrowser,
    KillDriver,
    Done,
}

/// The one outside step the caller must perform next.  The write
/// actions carry the bytes to put into the form field.
#[derive(Clone, Debug, PartialEq, Eq)]
pub enum ScrapeAction {
    SpawnDriver,
    ConnectBrowser,
    Navigate,
    WriteLatitude(Vec<u8>),
    WriteLongitude(Vec<u8>),
    WriteDateFrom(Vec<u8>),
    WriteDateTo(Vec<u8>),
    ToggleParameter,
    TriggerUpdate,
    ReadCell,
    QuitBrowser,
    KillDriver,
    Finish,
}

/// What the performed step came to.
#[derive(Clone, Debug, PartialEq, Eq)]
pub enum ScrapeEvent {
    StepOk,
    StepFailed,
    CellText(Vec<u8>),
}

/// One scrape of the dashboard as a state machine.  The caller performs
/// `next_action`, reports the outcome through `on_event`, and repeats
/// until `Done`; the machine decides every transition, and its invariant
/// guarantees that when it is done, no driver process and no browser
/// connection is left alive, whichever step failed.
#[derive(Clone, Debug)]
pub struct ScrapeSession {
    pub phase: ScrapePhase,
    pub driver_live: bool,
    pub browser_live: bool,
    pub result: Option<Result<Reading, MonitorError>>,
    pub config: ScrapeConfig,
}

impl ScrapeSession {
    /// Whether the phase is one of the dashboard interactions, which run
    /// with both resources live.
    pub open spec fn in_interaction(self) -> bool {
        self.phase == ScrapePhase::Navigate || self.phase == ScrapePhase::SetLatitude
            || self.phase == ScrapePhase::SetLongitude || self.phase == ScrapePhase::SetDateFrom
            || self.phase == ScrapePhase::SetDateTo || self.phase == ScrapePhase::ToggleParameter
            || self.phase == ScrapePhase::TriggerUpdate || self.phase == ScrapePhase::ReadCell
    }

    /// The machine's invariant: resources match the phase, tear-down is
    /// reached only with the outcome fixed, and at `Done` both resources
    /// are released and an outcome is on record.
    pub open spec fn inv(self) -> bool {
        &&& (self.phase == ScrapePhase::SpawnDriver ==> !self.driver_live && !self.browser_live
            && self.result is None)
        &&& (self.phase == ScrapePhase::ConnectBrowser ==> self.driver_live && !self.browser_live
            && self.result is None)
        &&& (self.in_interaction() ==> self.driver_live && self.browser_live && self.result is None)
        &&& (self.phase == ScrapePhase::QuitBrowser ==> self.driver_live && self.browser_live
            && self.result is Some)
        &&& (self.phase == ScrapePhase::KillDriver ==> self.driver_live && !self.browser_live
            && self.result is Some)
        &&& (self.phase == ScrapePhase::Done ==> !self.driver_live && !self.browser_live
            && self.result is Some)
        &&& (self.result matches Some(res) ==> (res matches Ok(rd) ==> rd.wf()))
        &&& (self.result matches Some(res) ==> (res matches Err(e) ==> (e == MonitorError::SessionStart
            || e == MonitorError::Scrape || e == MonitorError::Parse)))
    }

    /// How many events the machine can still take: strictly falls at
    /// every step, so every scrape ends.
    pub open spec fn measure(self) -> nat {
        match self.phase {
            ScrapePhase::SpawnDriver => 12,
            ScrapePhase::ConnectBrowser => 11,
            ScrapePhase::Navigate => 10,
            ScrapePhase::SetLatitude => 9,
            ScrapePhase::SetLongitude => 8,
            ScrapePhase::SetDateFrom => 7,
            ScrapePhase::SetDateTo => 6,
            ScrapePhase::ToggleParameter => 5,
            ScrapePhase::TriggerUpdate => 4,
            ScrapePhase::ReadCell => 3,
            ScrapePhase::QuitBrowser => 2,
            ScrapePhase::KillDriver => 1,
            ScrapePhase::Done => 0,
        }
    }

    /// Which events the pending action can come back with: the cell text
    /// only from `ReadCell`, success or failure from everything else.
    pub open spec fn expects(self, e: ScrapeEvent) -> bool {
        match e {
            ScrapeEvent::CellText(_) => self.phase == ScrapePhase::ReadCell,
            _ => self.phase != ScrapePhase::Done,
        }
    }

    /// A fresh scrape, nothing acquired yet.
    pub fn start(config: ScrapeConfig) -> (s: ScrapeSession)
        ensures
            s.inv(),
            s.phase == ScrapePhase::SpawnDriver,
            !s.driver_live,
            !s.browser_live,
            s.result is None,
            s.config.latitude@ == config.latitude@,
            s.config.longitude@ == config.longitude@,
            s.config.date@ == config.date@,
    {
        ScrapeSession {
            phase: ScrapePhase::SpawnDriver,
            driver_live: false,
            browser_live: false,
            result: Option::None,
            config,
        }
    }

    /// The outside step to perform next.  A release action is only ever
    /// handed out for a resource that is live, so release is never
    /// requested twice.
    pub fn next_action(&self) -> (a: ScrapeAction)
        requires
            self.inv(),
        ensures
            a matches ScrapeAction::WriteLatitude(v) ==> v@ == self.config.latitude@,
            a matches ScrapeAction::WriteLongitude(v) ==> v@ == self.config.longitude@,
            a matches ScrapeAction::WriteDateFrom(v) ==> v@ == self.config.date@,
            a matches ScrapeAction::WriteDateTo(v) ==> v@ == self.config.date@,
            a == ScrapeAction::QuitBrowser ==> self.browser_live,
            a == ScrapeAction::KillDriver ==> self.driver_live && !self.browser_live,
            self.phase == ScrapePhase::SpawnDriver ==> a == ScrapeAction::SpawnDriver,
            self.phase == ScrapePhase::ConnectBrowser ==> a == ScrapeAction::ConnectBrowser,
            self.phase == ScrapePhase::Navigate ==> a == ScrapeAction::Navigate,
            self.phase == ScrapePhase::SetLatitude ==> a is WriteLatitude,
            self.phase == ScrapePhase::SetLongitude ==> a is WriteLongitude,
            self.phase == ScrapePhase::SetDateFrom ==> a is WriteDateFrom,
            self.phase == ScrapePhase::SetDateTo ==> a is WriteDateTo,
            self.phase == ScrapePhase::ToggleParameter ==> a == ScrapeAction::ToggleParameter,
            self.phase == ScrapePhase::TriggerUpdate ==> a == ScrapeAction::TriggerUpdate,
            self.phase == ScrapePhase::ReadCell ==> a == ScrapeAction::ReadCell,
            self.phase == ScrapePhase::QuitBrowser ==> a == ScrapeAction::QuitBrowser,
            self.phase == ScrapePhase::KillDriver ==> a == ScrapeAction::KillDriver,
            self.phase == ScrapePhase::Done ==> a == ScrapeAction::Finish,
    {
        match self.phase {
            ScrapePhase::SpawnDriver => ScrapeAction::SpawnDriver,
            ScrapePhase::ConnectBrowser => ScrapeAction::ConnectBrowser,
            ScrapePhase::Navigate => ScrapeAction::Navigate,
            ScrapePhase::SetLatitude => ScrapeAction::WriteLatitude(copy_bytes(&self.config.latitude)),
            ScrapePhase::SetLongitude => ScrapeAction::WriteLongitude(
                copy_bytes(&self.config.longitude),
            ),
            ScrapePhase::SetDateFrom => ScrapeAction::WriteDateFrom(copy_bytes(&self.config.date)),
            ScrapePhase::SetDateTo => ScrapeAction::WriteDateTo(copy_bytes(&self.config.date)),
            ScrapePhase::ToggleParameter => ScrapeAction::ToggleParameter,
            ScrapePhase::TriggerUpdate => ScrapeAction::TriggerUpdate,
            ScrapePhase::ReadCell => ScrapeAction::ReadCell,
            ScrapePhase::QuitBrowser => ScrapeAction::QuitBrowser,
            ScrapePhase::KillDriver => ScrapeAction::KillDriver,
            ScrapePhase::Done => ScrapeAction::Finish,
        }
    }

    /// Feed back what the performed step came to, and move the machine.
    /// On a bring-up failure the outcome is a session-start error; on an
    /// interaction failure, a scrape error; on unparsable cell text, a
    /// parse error.  Tear-down runs after success and failure alike, and
    /// a failure to quit the browser never skips the driver kill.
    pub fn on_event(&mut self, e: ScrapeEvent)
        requires
            old(self).inv(),
            old(self).expects(e),
        ensures
            final(self).inv(),
            final(self).measure() < old(self).measure(),
            final(self).config.latitude@ == old(self).config.latitude@,
            final(self).config.longitude@ == old(self).config.longitude@,
            final(self).config.date@ == old(self).config.date@,
            old(self).phase == ScrapePhase::SpawnDriver && e == ScrapeEvent::StepOk ==> final(self).phase == ScrapePhase::ConnectBrowser && final(self).driver_live,
            old(self).phase == ScrapePhase::SpawnDriver && e == ScrapeEvent::StepFailed ==> final(self).phase == ScrapePhase::Done && final(self).result == Some(
                Result::<Reading, MonitorError>::Err(MonitorError::SessionStart),
            ),
            old(self).phase == ScrapePhase::ConnectBrowser && e == ScrapeEvent::StepOk ==> final(self).phase == ScrapePhase::Navigate && final(self).browser_live,
            old(self).phase == ScrapePhase::ConnectBrowser && e == ScrapeEvent::StepFailed ==> final(self).phase == ScrapePhase::KillDriver && final(self).result == Some(
                Result::<Reading, MonitorError>::Err(MonitorError::SessionStart),
            ),
            old(self).in_interaction() && old(self).phase != ScrapePhase::ReadCell && e
                == ScrapeEvent::StepOk ==> final(self).in_interaction() || final(self).phase
                == ScrapePhase::ReadCell,
            old(self).in_interaction() && e == ScrapeEvent::StepFailed ==> final(self).phase
                == ScrapePhase::QuitBrowser && final(self).result == Some(
                Result::<Reading, MonitorError>::Err(MonitorError::Scrape),
            ),
            old(self).phase == ScrapePhase::Navigate && e == ScrapeEvent::StepOk ==> final(self).phase == ScrapePhase::SetLatitude,
            old(self).phase == ScrapePhase::SetLatitude && e == ScrapeEvent::StepOk ==> final(self).phase == ScrapePhase::SetLongitude,
            old(self).phase == ScrapePhase::SetLongitude && e == ScrapeEvent::StepOk ==> final(self).phase == ScrapePhase::SetDateFrom,
            old(self).phase == ScrapePhase::SetDateFrom && e == ScrapeEvent::StepOk ==> final(self).phase == ScrapePhase::SetDateTo,
            old(self).phase == ScrapePhase::SetDateTo && e == ScrapeEvent::StepOk ==> final(self).phase == ScrapePhase::ToggleParameter,
            old(self).phase == ScrapePhase::ToggleParameter && e == ScrapeEvent::StepOk ==> final(self).phase == ScrapePhase::TriggerUpdate,
            old(self).phase == ScrapePhase::TriggerUpdate && e == ScrapeEvent::StepOk ==> final(self).phase == ScrapePhase::ReadCell,
            old(self).phase == ScrapePhase::ReadCell && e is CellText ==> final(self).phase
                == ScrapePhase::QuitBrowser,
            old(self).phase == ScrapePhase::ReadCell ==> (e matches ScrapeEvent::CellText(text)
                ==> (spec_parse(text@) matches Some(t) ==> (t.1 <= u64::MAX ==> (final(self).result matches Some(res) && res matches Ok(rd) && rd.negative == t.0
                && rd.units as nat == t.1 && rd.frac@ == t.2)))),
            old(self).phase == ScrapePhase::ReadCell ==> (e matches ScrapeEvent::CellText(text)
                ==> (spec_parse(text@) is None ==> final(self).result == Some(
                Result::<Reading, MonitorError>::Err(MonitorError::Parse),
            ))),
            old(self).phase == ScrapePhase::ReadCell ==> (e matches ScrapeEvent::CellText(text)
                ==> (spec_parse(text@) matches Some(t) ==> (t.1 > u64::MAX ==> final(self).result
                == Some(Result::<Reading, MonitorError>::Err(MonitorError::Parse))))),
            old(self).phase == ScrapePhase::QuitBrowser ==> final(self).phase
                == ScrapePhase::KillDriver && !final(self).browser_live && final(self).result == old(self).result,
            old(self).phase == ScrapePhase::KillDriver ==> final(self).phase == ScrapePhase::Done
                && !final(self).driver_live && final(self).result == old(self).result,
    {
        match self.phase {
            ScrapePhase::SpawnDriver => {
                match e {
                    ScrapeEvent::StepOk => {
                        self.driver_live = true;
                        self.phase = ScrapePhase::ConnectBrowser;
                    },
                    _ => {
                        self.result = Some(Err(MonitorError::SessionStart));
                        self.phase = ScrapePhase::Done;
                    },
                }
            },
            ScrapePhase::ConnectBrowser => {
                match e {
                    ScrapeEvent::StepOk => {
                        self.browser_live = true;
                        self.phase = ScrapePhase::Navigate;
                    },
                    _ => {
                        self.result = Some(Err(MonitorError::SessionStart));
                        self.phase = ScrapePhase::KillDriver;
                    },
                }
            },
            ScrapePhase::Navigate => {
                match e {
                    ScrapeEvent::StepOk => {
                        self.phase = ScrapePhase::SetLatitude;
                    },
                    _ => {
                        self.result = Some(Err(MonitorError::Scrape));
                        self.phase = ScrapePhase::QuitBrowser;
                    },
                }
            },
            ScrapePhase::SetLatitude => {
                match e {
                    ScrapeEvent::StepOk => {
                        self.phase = ScrapePhase::SetLongitude;
                    },
                    _ => {
                        self.result = Some(Err(MonitorError::Scrape));
                        self.phase = ScrapePhase::QuitBrowser;
                    },
                }
            },
            ScrapePhase::SetLongitude => {
                match e {
                    ScrapeEvent::StepOk => {
                        self.phase = ScrapePhase::SetDateFrom;
                    },
                    _ => {
                        self.result = Some(Err(MonitorError::Scrape));
                        self.phase = ScrapePhase::QuitBrowser;
                    },
                }
            },
            ScrapePhase::SetDateFrom => {
                match e {
                    ScrapeEvent::StepOk => {
                        self.phase = ScrapePhase::SetDateTo;
                    },
                    _ => {
                        self.result = Some(Err(MonitorError::Scrape));
                        self.phase = ScrapePhase::QuitBrowser;
                    },
                }
            },
            ScrapePhase::SetDateTo => {
                match e {
                    ScrapeEvent::StepOk => {
                        self.phase = ScrapePhase::ToggleParameter;
                    },
                    _ => {
                        self.result = Some(Err(MonitorError::Scrape));
                        self.phase = ScrapePhase::QuitBrowser;
                    },
                }
            },
            ScrapePhase::ToggleParameter => {
                match e {
                    ScrapeEvent::StepOk => {
                        self.phase = ScrapePhase::TriggerUpdate;
                    },
                    _ => {
                        self.result = Some(Err(MonitorError::Scrape));
                        self.phase = ScrapePhase::QuitBrowser;
                    },
                }
            },
            ScrapePhase::TriggerUpdate => {
                match e {
                    ScrapeEvent::StepOk => {
                        self.phase = ScrapePhase::ReadCell;
                    },
                    _ => {
                        self.result = Some(Err(MonitorError::Scrape));
                        self.phase = ScrapePhase::QuitBrowser;
                    },
                }
            },
            ScrapePhase::ReadCell => {
                match e {
                    ScrapeEvent::CellText(text) => {
                        match parse_comma_decimal(&text) {
                            Ok(rd) => {
                                self.result = Some(Ok(rd));
                            },
                            Err(pe) => {
                                self.result = Some(Err(pe));
                            },
                        }
                        self.phase = ScrapePhase::QuitBrowser;
                    },
                    _ => {
                        self.result = Some(Err(MonitorError::Scrape));
                        self.phase = ScrapePhase::QuitBrowser;
                    },
                }
            },
            ScrapePhase::QuitBrowser => {
                self.browser_live = false;
                self.phase = ScrapePhase::KillDriver;
            },
            ScrapePhase::KillDriver => {
                self.driver_live = false;
                self.phase = ScrapePhase::Done;
            },
            ScrapePhase::Done => {
            },
        }
    }
}

/// When a scrape is done, both external resources are down and an
/// outcome is on record: nothing leaks, whichever step failed.
pub proof fn lemma_session_released(s: ScrapeSession)
    requires
        s.inv(),
        s.phase == ScrapePhase::Done,
    ensures
        !s.driver_live,
        !s.browser_live,
        s.result is Some,
{
}

/// Copy a byte vector.
fn copy_bytes(src: &Vec<u8>) -> (v: Vec<u8>)
    ensures
        v@ == src@,
{
    let mut v: Vec<u8> = Vec::new();
    let mut k: usize = 0;
    while k < src.len()
        invariant
            k <= src@.len(),
            v@ == src@.subrange(0, k as int),
        decreases src@.len() - k,
    {
        v.push(src[k]);
        proof {
            assert(src@.subrange(0, k as int) + seq![src@[k as int]] =~= src@.subrange(
                0,
                k as int + 1,
            ));
        }
        k += 1;
    }
    proof {
        assert(src@.subrange(0, src@.len() as int) =~= src@);
    }
    v
}

} // verus!
