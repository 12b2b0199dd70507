use consensus_core::liveness::{NewRoundEvent, NewRoundReason, Pacemaker, RoundIntervalStrategy};
use std::time::Duration;

struct FixedInterval(Duration);

impl RoundIntervalStrategy for FixedInterval {
    fn round_duration(&self, _round_index_after_ordered: usize) -> Duration {
        self.0
    }

    fn get_round_duration(&self, round_index_after_ordered: usize) -> Duration {
        self.round_duration(round_index_after_ordered)
    }
}

struct DoublingInterval;

impl RoundIntervalStrategy for DoublingInterval {
    fn round_duration(&self, round_index_after_ordered: usize) -> Duration {
        Duration::from_millis(100 << round_index_after_ordered.min(4))
    }

    fn get_round_duration(&self, round_index_after_ordered: usize) -> Duration {
        self.round_duration(round_index_after_ordered)
    }
}

fn create_test_pacemaker() -> Pacemaker<FixedInterval> {
    Pacemaker::new(FixedInterval(Duration::from_millis(100)), 1)
}

#[test]
fn test_pacemaker_creation() {
    let pacemaker = create_test_pacemaker();

    assert_eq!(pacemaker.current_round(), 1);
    assert_eq!(pacemaker.highest_ordered_round(), 0);
}

#[test]
fn test_enter_new_round() {
    let mut pacemaker = create_test_pacemaker();

    let event = pacemaker.enter_new_round(2).unwrap();

    assert_eq!(event.round, 2);
    assert_eq!(pacemaker.current_round(), 2);
    assert_eq!(event.timeout_duration, Duration::from_millis(100));
}

#[test]
fn test_cannot_enter_past_round() {
    let mut pacemaker = create_test_pacemaker();

    let result = pacemaker.enter_new_round(1);

    assert!(result.is_err());
}

#[test]
fn test_record_ordered_round() {
    let mut pacemaker = create_test_pacemaker();

    pacemaker.record_ordered_round(1).unwrap();

    assert_eq!(pacemaker.highest_ordered_round(), 1);
}

#[test]
fn test_new_round_reason_display() {
    let reason = NewRoundReason::QuorumCertificate;
    assert_eq!(reason.to_string(), "QCReady");

    let reason = NewRoundReason::Timeout { rounds_since_ordered: 5 };
    assert_eq!(reason.to_string(), "Timeout(rounds_since_ordered=5)");
}

#[test]
fn test_pacemaker_can_enter_round() {
    let pacemaker = create_test_pacemaker();

    assert!(pacemaker.can_enter_round(2));
    assert!(pacemaker.can_enter_round(100));

    assert!(!pacemaker.can_enter_round(1));
    assert!(!pacemaker.can_enter_round(0));
}

#[test]
fn test_record_ordered_round_error() {
    let mut pacemaker = create_test_pacemaker();

    pacemaker.record_ordered_round(5).unwrap();

    let result = pacemaker.record_ordered_round(3);
    assert!(result.is_err());

    let result2 = pacemaker.record_ordered_round(5);
    assert!(result2.is_err());
}

#[test]
fn test_current_round_timeout() {
    let mut pacemaker = create_test_pacemaker();

    assert_eq!(pacemaker.current_round_timeout(), Duration::from_millis(100));

    pacemaker.enter_new_round(10).unwrap();
    assert_eq!(pacemaker.current_round_timeout(), Duration::from_millis(100));
}

#[test]
fn test_check_timeout() {
    let pacemaker = create_test_pacemaker();

    assert!(!pacemaker.check_timeout(Duration::from_secs(100)));
    assert!(!pacemaker.check_timeout(Duration::from_millis(0)));
}

#[test]
fn test_pacemaker_reset() {
    let mut pacemaker = create_test_pacemaker();

    pacemaker.enter_new_round(10).unwrap();
    pacemaker.record_ordered_round(5).unwrap();

    pacemaker.reset(1);
    assert_eq!(pacemaker.current_round(), 1);
    assert_eq!(pacemaker.highest_ordered_round(), 0);
}

#[test]
fn test_pacemaker_reset_round_zero() {
    let mut pacemaker = create_test_pacemaker();

    pacemaker.reset(0);
    assert_eq!(pacemaker.current_round(), 0);
    assert_eq!(pacemaker.highest_ordered_round(), 0);
}

#[test]
fn test_pacemaker_interval_strategy() {
    let pacemaker = create_test_pacemaker();
    let strategy = pacemaker.interval_strategy();

    assert_eq!(strategy.get_round_duration(0), Duration::from_millis(100));
}

#[test]
fn test_exponential_interval_new_round_reason_qc() {
    let reason = NewRoundReason::QuorumCertificate;
    assert!(matches!(reason, NewRoundReason::QuorumCertificate));
}

#[test]
fn test_new_round_event_new() {
    let event = NewRoundEvent::new(5, NewRoundReason::Timeout { rounds_since_ordered: 2 }, Duration::from_millis(500));

    assert_eq!(event.round, 5);
    assert_eq!(event.timeout_duration, Duration::from_millis(500));
}

#[test]
fn test_enter_new_round_with_qc_reason() {
    let mut pacemaker = create_test_pacemaker();

    pacemaker.record_ordered_round(1).unwrap();

    let event = pacemaker.enter_new_round(2).unwrap();
    assert!(matches!(event.reason, NewRoundReason::QuorumCertificate));
}

#[test]
fn test_enter_new_round_with_timeout_reason() {
    let mut pacemaker = create_test_pacemaker();

    let event = pacemaker.enter_new_round(10).unwrap();
    assert!(matches!(event.reason, NewRoundReason::Timeout { .. }));

    if let NewRoundReason::Timeout { rounds_since_ordered } = event.reason {
        assert_eq!(rounds_since_ordered, 9); // 10 - (0 + 1) = 9
    }
}

#[test]
fn test_pacemaker_initial_round_zero() {
    let pacemaker = Pacemaker::new(FixedInterval(Duration::from_millis(100)), 0);
    assert_eq!(pacemaker.current_round(), 0);
    assert_eq!(pacemaker.highest_ordered_round(), 0);
}

#[test]
fn the_timeout_of_a_round_grows_with_the_rounds_since_ordered() {
    let mut pacemaker = Pacemaker::new(DoublingInterval, 1);
    let e = pacemaker.enter_new_round(4).unwrap();
    // round 4 is 3 rounds after the round following ordered round 0
    assert_eq!(e.timeout_duration, Duration::from_millis(800));
    assert_eq!(pacemaker.current_round_timeout(), Duration::from_millis(800));
}
