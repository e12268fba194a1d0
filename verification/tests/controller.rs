use fan_control::fan::{Decision, FanCommand, FanController, FanEvent};

/// Drive one tick the way the daemon loop does: plan, perform the (simulated)
/// write, and commit its outcome.
fn tick(c: &mut FanController, t: i64, th: i64, v: i64, write_ok: bool) -> Decision {
    let d = c.plan(t, th, v);
    if let Some(cmd) = d.command {
        c.apply(cmd, write_ok);
    }
    d
}

#[test]
fn off_below_band_does_nothing() {
    let mut c = FanController::new(17);
    let d = tick(&mut c, 40_000, 55_000, 5_000, true);
    assert_eq!(d.command, None);
    assert_eq!(d.event, None);
    assert!(!c.is_running());
}

#[test]
fn off_at_off_point_does_nothing() {
    let mut c = FanController::new(17);
    let d = tick(&mut c, 50_000, 55_000, 5_000, true);
    assert_eq!(d.command, None);
    assert_eq!(d.event, None);
    assert!(!c.is_running());
}

#[test]
fn band_is_chatter_free_from_off() {
    let mut c = FanController::new(17);
    for t in [50_001, 55_000, 58_000, 59_999] {
        let d = tick(&mut c, t, 55_000, 5_000, true);
        assert_eq!(d.command, None);
        assert_eq!(d.event, None);
        assert!(!c.is_running());
    }
}

#[test]
fn band_is_chatter_free_from_on() {
    let mut c = FanController::new(17);
    c.apply(FanCommand::Active, true);
    assert!(c.is_running());
    for t in [50_001, 55_000, 58_000, 59_999] {
        let d = tick(&mut c, t, 55_000, 5_000, true);
        assert_eq!(d.command, None);
        assert_eq!(d.event, Some(FanEvent::HeldOn));
        assert!(c.is_running());
    }
}

#[test]
fn turns_on_at_on_point() {
    let mut c = FanController::new(17);
    let d = tick(&mut c, 60_000, 55_000, 5_000, true);
    assert_eq!(d.command, Some(FanCommand::Active));
    assert_eq!(d.event, Some(FanEvent::TurnedOn));
    assert!(c.is_running());
}

#[test]
fn turns_off_at_off_point() {
    let mut c = FanController::new(17);
    c.apply(FanCommand::Active, true);
    let d = tick(&mut c, 50_000, 55_000, 5_000, true);
    assert_eq!(d.command, Some(FanCommand::Inactive));
    assert_eq!(d.event, Some(FanEvent::TurnedOff));
    assert!(!c.is_running());
}

#[test]
fn repeated_hot_sample_commands_once() {
    let mut c = FanController::new(17);
    let d = tick(&mut c, 61_000, 55_000, 5_000, true);
    assert_eq!(d.command, Some(FanCommand::Active));
    for _ in 0..3 {
        let d = tick(&mut c, 61_000, 55_000, 5_000, true);
        assert_eq!(d.command, None);
        assert_eq!(d.event, Some(FanEvent::HeldOn));
        assert!(c.is_running());
    }
}

#[test]
fn repeated_cold_sample_commands_once() {
    let mut c = FanController::new(17);
    c.apply(FanCommand::Active, true);
    let d = tick(&mut c, 49_000, 55_000, 5_000, true);
    assert_eq!(d.command, Some(FanCommand::Inactive));
    for _ in 0..3 {
        let d = tick(&mut c, 49_000, 55_000, 5_000, true);
        assert_eq!(d.command, None);
        assert_eq!(d.event, None);
        assert!(!c.is_running());
    }
}

#[test]
fn failed_write_leaves_state_unchanged() {
    let mut c = FanController::new(17);
    let d = tick(&mut c, 61_000, 55_000, 5_000, false);
    assert_eq!(d.command, Some(FanCommand::Active));
    assert!(!c.is_running());
    // The next tick sees the true prior state and commands again.
    let d = tick(&mut c, 61_000, 55_000, 5_000, true);
    assert_eq!(d.command, Some(FanCommand::Active));
    assert!(c.is_running());
}

#[test]
fn failed_write_on_turn_off_keeps_running() {
    let mut c = FanController::new(17);
    c.apply(FanCommand::Active, true);
    let d = tick(&mut c, 45_000, 55_000, 5_000, false);
    assert_eq!(d.command, Some(FanCommand::Inactive));
    assert!(c.is_running());
}

#[test]
fn release_always_commands_inactive() {
    let off = FanController::new(17);
    assert_eq!(off.release_command(), FanCommand::Inactive);
    let mut on = FanController::new(17);
    on.apply(FanCommand::Active, true);
    assert_eq!(on.release_command(), FanCommand::Inactive);
}

#[test]
fn line_number_is_kept() {
    let mut c = FanController::new(23);
    assert_eq!(c.line_num(), 23);
    c.apply(FanCommand::Active, true);
    assert_eq!(c.line_num(), 23);
}

#[test]
fn end_to_end_sample_sequence() {
    // threshold 55 C, variance 5 C: on-point 60 C, off-point 50 C.
    let mut c = FanController::new(17);
    let samples: [i64; 5] = [50_000, 61_000, 53_000, 49_000, 61_000];
    let expected: [Option<FanEvent>; 5] = [
        None,
        Some(FanEvent::TurnedOn),
        Some(FanEvent::HeldOn),
        Some(FanEvent::TurnedOff),
        Some(FanEvent::TurnedOn),
    ];
    for (t, e) in samples.iter().zip(expected.iter()) {
        let d = tick(&mut c, *t, 55_000, 5_000, true);
        assert_eq!(d.event, *e);
    }
    assert!(c.is_running());
}

#[test]
fn zero_variance_switches_at_threshold() {
    let mut c = FanController::new(17);
    let d = tick(&mut c, 55_000, 55_000, 0, true);
    assert_eq!(d.command, Some(FanCommand::Active));
    let d = tick(&mut c, 54_999, 55_000, 0, true);
    assert_eq!(d.command, Some(FanCommand::Inactive));
}

#[test]
fn extreme_inputs_do_not_overflow() {
    let mut c = FanController::new(17);
    let d = tick(&mut c, i64::MAX, i64::MAX, i64::MAX, true);
    // on-point is i64::MAX + i64::MAX, above any sample: no command.
    assert_eq!(d.command, None);
    let d = tick(&mut c, i64::MIN, i64::MIN, i64::MAX, true);
    assert_eq!(d.command, None);
}
