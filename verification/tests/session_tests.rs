use frostwatch::{
    MonitorError, Reading, ScrapeAction, ScrapeConfig, ScrapeEvent, ScrapePhase, ScrapeSession,
    Timestamp,
};

fn config() -> ScrapeConfig {
    let today = Timestamp { year: 2023, month: 10, day: 12, hour: 6, minute: 0, second: 0 };
    ScrapeConfig::new(b"56,1".to_vec(), b"10,2".to_vec(), &today)
}

/// Drive one scrape to completion, failing the step performed in
/// `fail_at` (if any) and answering `ReadCell` with `cell_text`.
fn drive(fail_at: Option<ScrapePhase>, cell_text: &[u8]) -> ScrapeSession {
    let mut s = ScrapeSession::start(config());
    let mut steps: u32 = 0;
    while s.phase != ScrapePhase::Done {
        let e = if Some(s.phase) == fail_at {
            ScrapeEvent::StepFailed
        } else if s.phase == ScrapePhase::ReadCell {
            ScrapeEvent::CellText(cell_text.to_vec())
        } else {
            ScrapeEvent::StepOk
        };
        s.on_event(e);
        steps += 1;
        assert!(steps <= 13, "a scrape must end");
    }
    s
}

fn assert_released(s: &ScrapeSession) {
    assert_eq!(s.phase, ScrapePhase::Done);
    assert!(!s.driver_live, "driver process must be terminated");
    assert!(!s.browser_live, "browser session must be closed");
}

#[test]
fn successful_scrape_parses_reading() {
    let s = drive(None, b"1,5");
    assert_released(&s);
    assert_eq!(
        s.result,
        Some(Ok(Reading { negative: false, units: 1, frac: vec![5] }))
    );
}

#[test]
fn cleanup_after_spawn_failure() {
    let s = drive(Some(ScrapePhase::SpawnDriver), b"1,5");
    assert_released(&s);
    assert_eq!(s.result, Some(Err(MonitorError::SessionStart)));
}

#[test]
fn cleanup_after_connect_failure() {
    let s = drive(Some(ScrapePhase::ConnectBrowser), b"1,5");
    assert_released(&s);
    assert_eq!(s.result, Some(Err(MonitorError::SessionStart)));
}

#[test]
fn cleanup_after_each_interaction_failure() {
    // Failure at every step of the dashboard sequence still tears both
    // resources down and reports a scrape error.
    for phase in [
        ScrapePhase::Navigate,
        ScrapePhase::SetLatitude,
        ScrapePhase::SetLongitude,
        ScrapePhase::SetDateFrom,
        ScrapePhase::SetDateTo,
        ScrapePhase::ToggleParameter,
        ScrapePhase::TriggerUpdate,
        ScrapePhase::ReadCell,
    ] {
        let s = drive(Some(phase), b"1,5");
        assert_released(&s);
        assert_eq!(s.result, Some(Err(MonitorError::Scrape)));
    }
}

#[test]
fn cleanup_after_parse_failure() {
    let s = drive(None, b"not a number");
    assert_released(&s);
    assert_eq!(s.result, Some(Err(MonitorError::Parse)));
}

#[test]
fn actions_follow_the_fixed_sequence() {
    let mut s = ScrapeSession::start(config());
    assert_eq!(s.next_action(), ScrapeAction::SpawnDriver);
    s.on_event(ScrapeEvent::StepOk);
    assert_eq!(s.next_action(), ScrapeAction::ConnectBrowser);
    s.on_event(ScrapeEvent::StepOk);
    assert_eq!(s.next_action(), ScrapeAction::Navigate);
    s.on_event(ScrapeEvent::StepOk);
    assert_eq!(s.next_action(), ScrapeAction::WriteLatitude(b"56,1".to_vec()));
    s.on_event(ScrapeEvent::StepOk);
    assert_eq!(s.next_action(), ScrapeAction::WriteLongitude(b"10,2".to_vec()));
    s.on_event(ScrapeEvent::StepOk);
    assert_eq!(s.next_action(), ScrapeAction::WriteDateFrom(b"12-10-2023".to_vec()));
    s.on_event(ScrapeEvent::StepOk);
    assert_eq!(s.next_action(), ScrapeAction::WriteDateTo(b"12-10-2023".to_vec()));
    s.on_event(ScrapeEvent::StepOk);
    assert_eq!(s.next_action(), ScrapeAction::ToggleParameter);
    s.on_event(ScrapeEvent::StepOk);
    assert_eq!(s.next_action(), ScrapeAction::TriggerUpdate);
    s.on_event(ScrapeEvent::StepOk);
    assert_eq!(s.next_action(), ScrapeAction::ReadCell);
    s.on_event(ScrapeEvent::CellText(b"0,0".to_vec()));
    assert_eq!(s.next_action(), ScrapeAction::QuitBrowser);
    s.on_event(ScrapeEvent::StepOk);
    assert_eq!(s.next_action(), ScrapeAction::KillDriver);
    s.on_event(ScrapeEvent::StepOk);
    assert_eq!(s.next_action(), ScrapeAction::Finish);
    assert_released(&s);
}

#[test]
fn quit_failure_still_kills_driver() {
    let mut s = ScrapeSession::start(config());
    for _ in 0..9 {
        s.on_event(ScrapeEvent::StepOk);
    }
    s.on_event(ScrapeEvent::CellText(b"2,0".to_vec()));
    assert_eq!(s.phase, ScrapePhase::QuitBrowser);
    s.on_event(ScrapeEvent::StepFailed);  // quit refused
    assert_eq!(s.phase, ScrapePhase::KillDriver);
    assert!(!s.browser_live);
    s.on_event(ScrapeEvent::StepFailed);  // kill reported an error too
    assert_released(&s);
    assert_eq!(
        s.result,
        Some(Ok(Reading { negative: false, units: 2, frac: vec![0] }))
    );
}
