use frostwatch::{
    decode_state, encode_state, AlertEvent, MonitorError, MonitorState, Reading, RunAction,
    RunEvent, RunMachine, RunPhase, Timestamp, WarningLevel,
};

fn now() -> Timestamp {
    Timestamp { year: 2023, month: 10, day: 12, hour: 6, minute: 30, second: 0 }
}

fn reading(negative: bool, units: u64, frac: &[u8]) -> Reading {
    Reading { negative, units, frac: frac.to_vec() }
}

#[test]
fn fresh_run_with_escalation_alerts_then_persists() {
    let mut m = RunMachine::start(now());
    assert_eq!(m.next_action(), RunAction::LoadSnapshot);
    m.on_event(RunEvent::NoSnapshot);
    assert_eq!(m.phase, RunPhase::StateLoaded);
    assert_eq!(m.next_action(), RunAction::Scrape);
    m.on_event(RunEvent::ScrapeFinished(Ok(reading(false, 0, &[5]))));
    assert_eq!(m.phase, RunPhase::Scraped);
    assert_eq!(
        m.next_action(),
        RunAction::SendAlert(AlertEvent { level: WarningLevel::Medium })
    );
    m.on_event(RunEvent::AlertDelivered(true));
    assert_eq!(m.phase, RunPhase::Classified);
    let persisted = match m.next_action() {
        RunAction::Persist(bytes) => bytes,
        other => panic!("expected a persist action, got {:?}", other),
    };
    let snapshot = decode_state(&persisted).expect("the machine persists its own record");
    assert_eq!(snapshot.current_warning_level, WarningLevel::Medium);
    assert_eq!(snapshot.last_email_sent, Some(now()));
    m.on_event(RunEvent::PersistFinished(true));
    assert_eq!(m.phase, RunPhase::Done);
    assert_eq!(m.next_action(), RunAction::Exit(true));
}

#[test]
fn loaded_snapshot_and_milder_reading_skip_the_alert() {
    let prior = MonitorState {
        current_warning_level: WarningLevel::Medium,
        last_email_sent: Some(now()),
    };
    let mut m = RunMachine::start(now());
    m.on_event(RunEvent::SnapshotRead(encode_state(&prior)));
    assert_eq!(m.phase, RunPhase::StateLoaded);
    assert_eq!(m.state, prior);
    m.on_event(RunEvent::ScrapeFinished(Ok(reading(false, 3, &[0]))));
    // 3.0 neither escalates nor resets: straight to persisting.
    assert_eq!(m.phase, RunPhase::Classified);
    assert_eq!(m.state, prior);
    m.on_event(RunEvent::PersistFinished(true));
    assert_eq!(m.next_action(), RunAction::Exit(true));
}

#[test]
fn reset_is_persisted_without_alert() {
    let prior = MonitorState {
        current_warning_level: WarningLevel::High,
        last_email_sent: Some(now()),
    };
    let mut m = RunMachine::start(now());
    m.on_event(RunEvent::SnapshotRead(encode_state(&prior)));
    m.on_event(RunEvent::ScrapeFinished(Ok(reading(false, 6, &[0]))));
    assert_eq!(m.phase, RunPhase::Classified);
    assert_eq!(m.state.current_warning_level, WarningLevel::NoWarning);
    assert_eq!(m.state.last_email_sent, Some(now()));
}

#[test]
fn failed_alert_delivery_still_persists_the_new_state() {
    let mut m = RunMachine::start(now());
    m.on_event(RunEvent::NoSnapshot);
    m.on_event(RunEvent::ScrapeFinished(Ok(reading(true, 1, &[]))));
    assert_eq!(m.phase, RunPhase::Scraped);
    m.on_event(RunEvent::AlertDelivered(false));
    assert_eq!(m.phase, RunPhase::Classified);
    match m.next_action() {
        RunAction::Persist(bytes) => {
            let snapshot = decode_state(&bytes).unwrap();
            assert_eq!(snapshot.current_warning_level, WarningLevel::High);
        },
        other => panic!("expected a persist action, got {:?}", other),
    }
}

#[test]
fn unreadable_store_routes_to_the_admin() {
    let mut m = RunMachine::start(now());
    m.on_event(RunEvent::LoadFailed);
    assert_eq!(m.phase, RunPhase::Notifying);
    assert_eq!(m.next_action(), RunAction::NotifyAdmin(MonitorError::Persistence));
    m.on_event(RunEvent::AdminNotified(false));
    assert_eq!(m.phase, RunPhase::Done);
    assert_eq!(m.next_action(), RunAction::Exit(false));
}

#[test]
fn corrupt_snapshot_routes_to_the_admin() {
    let mut m = RunMachine::start(now());
    m.on_event(RunEvent::SnapshotRead(b"{}".to_vec()));
    assert_eq!(m.phase, RunPhase::Notifying);
    assert_eq!(m.next_action(), RunAction::NotifyAdmin(MonitorError::Persistence));
}

#[test]
fn scrape_failure_routes_to_the_admin() {
    let mut m = RunMachine::start(now());
    m.on_event(RunEvent::NoSnapshot);
    m.on_event(RunEvent::ScrapeFinished(Err(MonitorError::SessionStart)));
    assert_eq!(m.phase, RunPhase::Notifying);
    assert_eq!(m.next_action(), RunAction::NotifyAdmin(MonitorError::SessionStart));
    m.on_event(RunEvent::AdminNotified(true));
    assert_eq!(m.next_action(), RunAction::Exit(false));
}

#[test]
fn persist_failure_routes_to_the_admin() {
    let mut m = RunMachine::start(now());
    m.on_event(RunEvent::NoSnapshot);
    m.on_event(RunEvent::ScrapeFinished(Ok(reading(false, 4, &[]))));
    assert_eq!(m.phase, RunPhase::Classified);
    m.on_event(RunEvent::PersistFinished(false));
    assert_eq!(m.phase, RunPhase::Notifying);
    assert_eq!(m.next_action(), RunAction::NotifyAdmin(MonitorError::Persistence));
}

#[test]
fn error_kinds_have_distinct_descriptions() {
    assert_eq!(MonitorError::SessionStart.describe(), "session start failure");
    assert_eq!(MonitorError::Scrape.describe(), "scrape failure");
    assert_eq!(MonitorError::Parse.describe(), "parse failure");
    assert_eq!(MonitorError::Config.describe(), "missing configuration");
    assert_eq!(MonitorError::Persistence.describe(), "persistence failure");
    assert_eq!(MonitorError::Delivery.describe(), "delivery failure");
}
