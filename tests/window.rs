use ccp_interface::{CongMeasurements, WindowController, DEFAULT_INIT_CWND};

fn report(acked: u32, loss: u32, was_timeout: bool) -> CongMeasurements {
    CongMeasurements { rtt: 10_000, acked, sacked: 0, inflight: 10, loss, was_timeout }
}

#[test]
fn timeout_without_loss_grows() {
    let mut w = WindowController::new(1500, 10);
    w.on_measurements(&report(10, 0, true));
    assert_eq!(w.window_bytes(), 1510);
}

#[test]
fn timeout_flag_does_not_change_growth() {
    let mut a = WindowController::with_cwnd(1460, 100, 5000);
    let mut b = WindowController::with_cwnd(1460, 100, 5000);
    a.on_measurements(&report(3000, 0, true));
    b.on_measurements(&report(3000, 0, false));
    assert_eq!(a.window_bytes(), b.window_bytes());
    assert_eq!(a.window_bytes(), 5000 + 1460 * 3000 / 5000);
}

#[test]
fn loss_halves_window() {
    let mut w = WindowController::with_cwnd(1500, 10, 1000);
    w.on_measurements(&report(0, 3, false));
    assert_eq!(w.window_bytes(), 500);
}

#[test]
fn loss_clamps_to_initial_window() {
    let mut w = WindowController::with_cwnd(1500, 10, 15);
    w.on_measurements(&report(0, 2, false));
    assert_eq!(w.window_bytes(), 10);
}

#[test]
fn loss_at_initial_window_stays_there() {
    let mut w = WindowController::new(1500, 10);
    w.on_measurements(&report(0, 1, true));
    assert_eq!(w.window_bytes(), 10);
    w.on_measurements(&report(0, 7, false));
    assert_eq!(w.window_bytes(), 10);
}

#[test]
fn growth_per_report_matches_formula() {
    let mut w = WindowController::new(1460, 14600);
    w.on_measurements(&report(14600, 0, false));
    assert_eq!(w.window_bytes(), 16060);
    w.on_measurements(&report(16060, 0, false));
    assert_eq!(w.window_bytes(), 17520);
}

#[test]
fn growth_keeps_fractions_of_a_byte() {
    // 3 -> 3.33 -> 3.63 -> 3.91 -> 4.16 bytes
    let mut w = WindowController::new(1, 3);
    let mut seen = Vec::new();
    for _ in 0..4 {
        w.on_measurements(&report(1, 0, false));
        seen.push(w.window_bytes());
    }
    assert_eq!(seen, vec![3, 3, 3, 4]);
    let mut exact: f64 = 3.0;
    for _ in 0..4 {
        exact += 1.0 / exact;
    }
    assert!((exact - 4.1643).abs() < 0.001);
}

#[test]
fn window_never_shrinks_without_loss() {
    let mut w = WindowController::new(1460, 2920);
    let mut last = w.window_bytes();
    for acked in [0u32, 1, 1460, 100_000, 7, 0, 65_535] {
        w.on_measurements(&report(acked, 0, false));
        assert!(w.window_bytes() >= last);
        last = w.window_bytes();
    }
}

#[test]
fn window_never_below_floor() {
    let mut w = WindowController::new(1460, 2920);
    for (acked, loss) in [(1460u32, 0u32), (0, 1), (0, 1), (0, 5), (2920, 0), (0, 1), (0, 1)] {
        w.on_measurements(&report(acked, loss, false));
        assert!(w.window_bytes() >= 2920);
    }
}

#[test]
fn zero_initial_window_uses_default() {
    let w = WindowController::new(1460, 0);
    assert_eq!(w.window_bytes(), DEFAULT_INIT_CWND);
    assert_eq!(w.mss(), 1460);
}

#[test]
fn window_below_floor_is_raised() {
    let w = WindowController::with_cwnd(1460, 3000, 100);
    assert_eq!(w.window_bytes(), 3000);
}

#[test]
fn window_bytes_saturate() {
    let mut w = WindowController::with_cwnd(u32::MAX, 1, u32::MAX);
    assert_eq!(w.window_bytes(), u32::MAX);
    w.on_measurements(&report(u32::MAX, 0, false));
    assert_eq!(w.window_bytes(), u32::MAX);
}

#[test]
fn puffer_keeps_scope_and_starts_at_initial_window() {
    let sc = portus::lang::Scope::new();
    let uid = sc.program_uid;
    let p = ccp_interface::Puffer::create(sc, 1500, 10);
    assert_eq!(p.scope().program_uid, uid);
    assert_eq!(p.window_bytes(), 10);
}
