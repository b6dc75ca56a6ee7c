use rest_tracker::clock::{ConfigurationError, EscalationClock, TimeWindow};
use rest_tracker::stage::EscalationStage;

fn clock_at(budget: i64, now: i64) -> EscalationClock {
    match EscalationClock::create_at(budget, now) {
        Ok(clock) => clock,
        Err(e) => panic!("budget {} refused: {:?}", budget, e),
    }
}

#[test]
fn create_opens_a_window_of_the_whole_budget() {
    let clock = clock_at(4000, 1000);
    assert_eq!(clock.stage(), EscalationStage::Initiated);
    assert_eq!(clock.budget(), 4000);
    assert_eq!(clock.window(), Some(TimeWindow::new(1000, 5000)));
    assert_eq!(clock.deadline(), Some(5000));
}

#[test]
fn create_refuses_a_budget_that_is_not_positive() {
    assert_eq!(EscalationClock::create_at(0, 1000).err(), Some(ConfigurationError::NonPositiveBudget));
    assert_eq!(EscalationClock::create_at(-1, 1000).err(), Some(ConfigurationError::NonPositiveBudget));
    assert_eq!(EscalationClock::create_at(i64::MIN, i64::MAX).err(), Some(ConfigurationError::NonPositiveBudget));
    assert_eq!(EscalationClock::create(0).err(), Some(ConfigurationError::NonPositiveBudget));
    assert_eq!(EscalationClock::create(-25).err(), Some(ConfigurationError::NonPositiveBudget));
    assert!(EscalationClock::create_at(1, 0).is_ok());
}

#[test]
fn create_reads_the_wall_clock() {
    let before = chrono::Utc::now().timestamp_millis();
    let clock = EscalationClock::create(4000).unwrap();
    let after = chrono::Utc::now().timestamp_millis();
    let window = clock.window().unwrap();
    assert!(before > 1_600_000_000_000);
    assert!(before <= window.from && window.from <= after);
    assert_eq!(window.to - window.from, 4000);
    assert_eq!(clock.deadline(), Some(window.from + 4000));
    assert_eq!(clock.stage(), EscalationStage::Initiated);
}

#[test]
fn expiry_is_strictly_after_the_deadline() {
    let clock = clock_at(4000, 1000);
    assert!(!clock.has_expired_at(0));
    assert!(!clock.has_expired_at(4999));
    assert!(!clock.has_expired_at(5000));
    assert!(clock.has_expired_at(5001));
    assert_eq!(clock.stage(), EscalationStage::Initiated);
    assert_eq!(clock.deadline(), Some(5000));
}

#[test]
fn advance_follows_the_table() {
    let mut clock = clock_at(4000, 0);
    clock.advance_at(10_000);
    assert_eq!(clock.stage(), EscalationStage::InitialWait);
    assert_eq!(clock.window(), Some(TimeWindow::new(10_000, 14_000)));
    clock.advance_at(20_000);
    assert_eq!(clock.stage(), EscalationStage::HalfExtension);
    assert_eq!(clock.window(), Some(TimeWindow::new(20_000, 22_000)));
    clock.advance_at(30_000);
    assert_eq!(clock.stage(), EscalationStage::QuarterExtension);
    assert_eq!(clock.window(), Some(TimeWindow::new(30_000, 31_000)));
    clock.advance_at(40_000);
    assert_eq!(clock.stage(), EscalationStage::Failed);
    assert_eq!(clock.window(), None);
    assert_eq!(clock.deadline(), None);
    clock.advance_at(50_000);
    assert_eq!(clock.stage(), EscalationStage::Failed);
    assert_eq!(clock.window(), None);
    assert_eq!(clock.budget(), 4000);
}

#[test]
fn advance_steps_even_before_the_deadline() {
    let mut clock = clock_at(4000, 0);
    assert!(!clock.has_expired_at(100));
    clock.advance_at(100);
    assert_eq!(clock.stage(), EscalationStage::InitialWait);
    assert_eq!(clock.deadline(), Some(4100));
}

#[test]
fn window_lengths_round_down() {
    let mut clock = clock_at(4003, 0);
    clock.advance_at(0);
    assert_eq!(clock.deadline(), Some(4003));
    clock.advance_at(0);
    assert_eq!(clock.deadline(), Some(2001));
    clock.advance_at(0);
    assert_eq!(clock.deadline(), Some(1000));

    let mut tiny = clock_at(1, 7);
    assert_eq!(tiny.deadline(), Some(8));
    tiny.advance_at(7);
    assert_eq!(tiny.window(), Some(TimeWindow::new(7, 8)));
    tiny.advance_at(7);
    assert_eq!(tiny.window(), Some(TimeWindow::new(7, 7)));
    tiny.advance_at(7);
    assert_eq!(tiny.window(), Some(TimeWindow::new(7, 7)));
    assert_eq!(tiny.stage(), EscalationStage::QuarterExtension);
}

#[test]
fn poll_before_the_deadline_changes_nothing() {
    let mut clock = clock_at(4000, 0);
    assert_eq!(clock.poll_at(1), EscalationStage::Initiated);
    assert_eq!(clock.poll_at(4000), EscalationStage::Initiated);
    assert_eq!(clock.poll_at(2000), EscalationStage::Initiated);
    assert_eq!(clock.window(), Some(TimeWindow::new(0, 4000)));
}

#[test]
fn poll_steps_once_however_late() {
    let mut clock = clock_at(4000, 0);
    assert_eq!(clock.poll_at(1_000_000), EscalationStage::InitialWait);
    assert_eq!(clock.window(), Some(TimeWindow::new(1_000_000, 1_004_000)));
    assert_eq!(clock.poll_at(1_000_000), EscalationStage::InitialWait);
    assert_eq!(clock.poll_at(1_000_000), EscalationStage::InitialWait);
    assert_eq!(clock.window(), Some(TimeWindow::new(1_000_000, 1_004_000)));
}

#[test]
fn a_new_window_starts_at_the_step_not_at_the_old_deadline() {
    let mut clock = clock_at(4000, 0);
    assert_eq!(clock.poll_at(9000), EscalationStage::InitialWait);
    assert_eq!(clock.deadline(), Some(13_000));
    assert_eq!(clock.poll_at(20_000), EscalationStage::HalfExtension);
    assert_eq!(clock.deadline(), Some(22_000));
}

#[test]
fn stages_come_in_order_and_failed_is_final() {
    let mut clock = clock_at(8, 0);
    let mut seen = vec![clock.stage()];
    let mut now = 0;
    for _ in 0..40 {
        now += 3;
        let stage = clock.poll_at(now);
        if seen.last() != Some(&stage) {
            seen.push(stage);
        }
    }
    assert_eq!(
        seen,
        vec![
            EscalationStage::Initiated,
            EscalationStage::InitialWait,
            EscalationStage::HalfExtension,
            EscalationStage::QuarterExtension,
            EscalationStage::Failed,
        ]
    );
    for _ in 0..10 {
        now += 1000;
        assert_eq!(clock.poll_at(now), EscalationStage::Failed);
        assert_eq!(clock.deadline(), None);
        assert!(clock.has_expired_at(now));
        assert!(clock.has_expired_at(0));
    }
}

#[test]
fn window_halves_and_halves_again() {
    let mut clock = clock_at(4000, 0);
    let mut lengths = Vec::new();
    let mut now = 0;
    while let Some(window) = clock.window() {
        lengths.push((clock.stage(), window.to - window.from));
        now = window.to + 1;
        clock.poll_at(now);
    }
    assert_eq!(
        lengths,
        vec![
            (EscalationStage::Initiated, 4000),
            (EscalationStage::InitialWait, 4000),
            (EscalationStage::HalfExtension, 2000),
            (EscalationStage::QuarterExtension, 1000),
        ]
    );
    assert_eq!(clock.stage(), EscalationStage::Failed);
}

#[test]
fn wall_clock_poll_leaves_a_fresh_clock_alone() {
    let mut clock = EscalationClock::create(3_600_000).unwrap();
    let deadline = clock.deadline();
    assert!(!clock.has_expired());
    assert_eq!(clock.poll(), EscalationStage::Initiated);
    assert_eq!(clock.poll(), EscalationStage::Initiated);
    assert_eq!(clock.deadline(), deadline);
}

#[test]
fn wall_clock_poll_steps_a_clock_that_ran_out_long_ago() {
    let mut clock = clock_at(3_600_000, 0);
    assert!(clock.has_expired());
    let before = chrono::Utc::now().timestamp_millis();
    assert_eq!(clock.poll(), EscalationStage::InitialWait);
    let after = chrono::Utc::now().timestamp_millis();
    let window = clock.window().unwrap();
    assert!(before <= window.from && window.from <= after);
    assert_eq!(window.to, window.from + 3_600_000);
    assert!(!clock.has_expired());
    assert_eq!(clock.poll(), EscalationStage::InitialWait);
    assert_eq!(clock.window(), Some(window));
}

#[test]
fn wall_clock_advance_opens_a_window_now() {
    let mut clock = clock_at(3_600_000, 0);
    clock.advance();
    let before = chrono::Utc::now().timestamp_millis();
    clock.advance();
    let after = chrono::Utc::now().timestamp_millis();
    assert_eq!(clock.stage(), EscalationStage::HalfExtension);
    let window = clock.window().unwrap();
    assert!(before <= window.from && window.from <= after);
    assert_eq!(window.to, window.from + 1_800_000);
    clock.advance();
    clock.advance();
    assert_eq!(clock.stage(), EscalationStage::Failed);
    assert!(clock.has_expired());
    clock.advance();
    assert_eq!(clock.stage(), EscalationStage::Failed);
    assert_eq!(clock.poll(), EscalationStage::Failed);
    assert_eq!(clock.deadline(), None);
}
