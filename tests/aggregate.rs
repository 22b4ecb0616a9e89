use ccp_interface::{AckEvent, Aggregator, ReportValues};

fn ack(micros_elapsed: u64, bytes_acked: u64, lost: u64, was_timeout: bool) -> AckEvent {
    AckEvent {
        micros_elapsed,
        rtt_sample_us: 100,
        packets_in_flight: 8,
        bytes_acked,
        packets_misordered: 1,
        lost_pkts_sample: lost,
        was_timeout,
    }
}

#[test]
fn reports_after_one_rtt_without_loss() {
    let mut a = Aggregator::new();
    assert_eq!(a.on_event(&ack(30, 1000, 0, false)), None);
    assert_eq!(a.on_event(&ack(30, 1000, 0, false)), None);
    assert_eq!(a.on_event(&ack(30, 1000, 0, false)), None);
    assert!(a.micros <= 100);
    let r = a.on_event(&ack(30, 1000, 0, false));
    assert_eq!(
        r,
        Some(ReportValues { rtt: 100, acked: 4000, sacked: 4, inflight: 8, loss: 0, timeout: false })
    );
    assert_eq!(a.micros, 0);
    assert_eq!(a.report.acked, 0);
}

#[test]
fn elapsed_time_stays_within_rtt() {
    let mut a = Aggregator::new();
    let mut reports = 0;
    for _ in 0..50 {
        if a.on_event(&ack(17, 10, 0, false)).is_some() {
            reports += 1;
        }
        assert!(a.micros <= 100);
    }
    assert_eq!(reports, 8);
}

#[test]
fn loss_is_reported_in_the_same_event() {
    let mut a = Aggregator::new();
    assert_eq!(a.on_event(&ack(1, 500, 0, false)), None);
    let r = a.on_event(&ack(1, 500, 2, false)).unwrap();
    assert_eq!(r.loss, 2);
    assert_eq!(r.acked, 1000);
    assert_eq!(a.micros, 0);
}

#[test]
fn timeout_is_reported_in_the_same_event() {
    let mut a = Aggregator::new();
    let r = a.on_event(&ack(0, 0, 0, true)).unwrap();
    assert!(r.timeout);
    assert_eq!(a.report, Aggregator::new().report);
}
