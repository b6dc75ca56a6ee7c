use rest_tracker::ack::Acknowledgment;
use rest_tracker::stage::EscalationStage;

#[test]
fn divisor_table() {
    assert_eq!(EscalationStage::Initiated.divisor(), Some(1));
    assert_eq!(EscalationStage::InitialWait.divisor(), Some(2));
    assert_eq!(EscalationStage::HalfExtension.divisor(), Some(4));
    assert_eq!(EscalationStage::QuarterExtension.divisor(), None);
    assert_eq!(EscalationStage::Failed.divisor(), None);
}

#[test]
fn successor_table() {
    assert_eq!(EscalationStage::Initiated.successor(), EscalationStage::InitialWait);
    assert_eq!(EscalationStage::InitialWait.successor(), EscalationStage::HalfExtension);
    assert_eq!(EscalationStage::HalfExtension.successor(), EscalationStage::QuarterExtension);
    assert_eq!(EscalationStage::QuarterExtension.successor(), EscalationStage::Failed);
    assert_eq!(EscalationStage::Failed.successor(), EscalationStage::Failed);
}

#[test]
fn only_failed_is_terminal() {
    assert!(!EscalationStage::Initiated.is_terminal());
    assert!(!EscalationStage::InitialWait.is_terminal());
    assert!(!EscalationStage::HalfExtension.is_terminal());
    assert!(!EscalationStage::QuarterExtension.is_terminal());
    assert!(EscalationStage::Failed.is_terminal());
}

#[test]
fn flag_starts_cleared() {
    let mut flag = Acknowledgment::new();
    assert!(!flag.is_raised());
    assert!(!flag.take());
    assert!(!flag.is_raised());
}

#[test]
fn flag_raised_twice_counts_once() {
    let mut flag = Acknowledgment::new();
    flag.raise();
    flag.raise();
    assert!(flag.is_raised());
    assert!(flag.take());
    assert!(!flag.is_raised());
    assert!(!flag.take());
    flag.raise();
    assert!(flag.take());
    assert!(!flag.take());
}
