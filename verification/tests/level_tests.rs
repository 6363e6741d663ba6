use frostwatch::{
    determine_warning_level, maybe_alert, next, MonitorState, Reading, Timestamp, WarningLevel,
};

fn reading(negative: bool, units: u64, frac: &[u8]) -> Reading {
    Reading { negative, units, frac: frac.to_vec() }
}

fn noon(day: u8) -> Timestamp {
    Timestamp { year: 2023, month: 10, day, hour: 12, minute: 0, second: 0 }
}

#[test]
fn classify_thresholds_coldest_first() {
    assert_eq!(determine_warning_level(&reading(true, 5, &[0])), WarningLevel::High);
    assert_eq!(determine_warning_level(&reading(false, 0, &[0])), WarningLevel::High);
    assert_eq!(determine_warning_level(&reading(false, 0, &[5])), WarningLevel::Medium);
    assert_eq!(determine_warning_level(&reading(false, 1, &[0])), WarningLevel::Medium);
    assert_eq!(determine_warning_level(&reading(false, 1, &[5])), WarningLevel::Low);
    assert_eq!(determine_warning_level(&reading(false, 2, &[0])), WarningLevel::Low);
    assert_eq!(determine_warning_level(&reading(false, 2, &[0, 1])), WarningLevel::NoWarning);
    assert_eq!(determine_warning_level(&reading(false, 3, &[])), WarningLevel::NoWarning);
}

#[test]
fn classify_boundaries_fall_cold() {
    // Exactly 0.0, 1.0 and 2.0 take the colder bucket.
    assert_eq!(determine_warning_level(&reading(false, 0, &[])), WarningLevel::High);
    assert_eq!(determine_warning_level(&reading(true, 0, &[0, 0])), WarningLevel::High);
    assert_eq!(determine_warning_level(&reading(false, 1, &[0, 0, 0])), WarningLevel::Medium);
    assert_eq!(determine_warning_level(&reading(false, 2, &[])), WarningLevel::Low);
}

#[test]
fn next_escalates_only_upward() {
    let r = reading(false, 1, &[5]);  // classifies Low
    assert_eq!(next(WarningLevel::NoWarning, &r), WarningLevel::Low);
    assert_eq!(next(WarningLevel::Low, &r), WarningLevel::Low);
    assert_eq!(next(WarningLevel::Medium, &r), WarningLevel::Medium);
    assert_eq!(next(WarningLevel::High, &r), WarningLevel::High);
}

#[test]
fn next_resets_at_five_from_every_level() {
    let r5 = reading(false, 5, &[0]);
    let r6 = reading(false, 6, &[]);
    for level in [WarningLevel::NoWarning, WarningLevel::Low, WarningLevel::Medium, WarningLevel::High] {
        assert_eq!(next(level, &r5), WarningLevel::NoWarning);
        assert_eq!(next(level, &r6), WarningLevel::NoWarning);
    }
}

#[test]
fn next_below_five_never_resets() {
    // 3.0 and 4.9 classify NoWarning but do not reset an existing level.
    let r3 = reading(false, 3, &[0]);
    let r49 = reading(false, 4, &[9]);
    assert_eq!(next(WarningLevel::Medium, &r3), WarningLevel::Medium);
    assert_eq!(next(WarningLevel::High, &r49), WarningLevel::High);
}

#[test]
fn ratchet_holds_for_two_milder_readings() {
    // Both readings classify below Medium; neither moves the level.
    let r1 = reading(false, 1, &[5]);
    let r2 = reading(false, 2, &[0]);
    assert_eq!(next(WarningLevel::Medium, &r1), WarningLevel::Medium);
    assert_eq!(next(WarningLevel::Medium, &r2), WarningLevel::Medium);
}

#[test]
fn alert_iff_strict_escalation() {
    let levels = [WarningLevel::NoWarning, WarningLevel::Low, WarningLevel::Medium, WarningLevel::High];
    for (i, &a) in levels.iter().enumerate() {
        for (j, &b) in levels.iter().enumerate() {
            let alert = maybe_alert(a, b);
            if j > i {
                let ev = alert.expect("strict escalation must alert");
                assert_eq!(ev.level, b);
            } else {
                assert!(alert.is_none(), "no alert for equal or lower level");
            }
        }
    }
}

#[test]
fn scenario_fresh_state_medium_reading_alerts() {
    // Current level NoWarning, reading 0.5: classifies Medium, escalates,
    // alert fired, state becomes Medium with the alert time marked.
    let mut state = MonitorState::new();
    let now = noon(1);
    let alert = state.daily_check(&reading(false, 0, &[5]), &now);
    let ev = alert.expect("escalation must alert");
    assert_eq!(ev.level, WarningLevel::Medium);
    assert_eq!(state.current_warning_level, WarningLevel::Medium);
    assert_eq!(state.last_email_sent, Some(now));
}

#[test]
fn scenario_milder_reading_changes_nothing() {
    // Current level Medium, reading 3.0: classifies NoWarning, below the
    // reset threshold, so nothing changes and nobody is alerted.
    let then = noon(1);
    let mut state = MonitorState {
        current_warning_level: WarningLevel::Medium,
        last_email_sent: Some(then),
    };
    let alert = state.daily_check(&reading(false, 3, &[0]), &noon(2));
    assert!(alert.is_none());
    assert_eq!(state.current_warning_level, WarningLevel::Medium);
    assert_eq!(state.last_email_sent, Some(then));
}

#[test]
fn scenario_warm_reading_resets_without_alert() {
    // Current level High, reading 6.0: full reset, no alert, and the
    // historical alert time stays.
    let then = noon(1);
    let mut state = MonitorState {
        current_warning_level: WarningLevel::High,
        last_email_sent: Some(then),
    };
    let alert = state.daily_check(&reading(false, 6, &[0]), &noon(2));
    assert!(alert.is_none());
    assert_eq!(state.current_warning_level, WarningLevel::NoWarning);
    assert_eq!(state.last_email_sent, Some(then));
}
