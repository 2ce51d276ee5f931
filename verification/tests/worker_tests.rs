use demonhide::worker::WarpWorker;

#[test]
fn worker_warps_until_stop_is_observed_and_never_after() {
    let mut w = WarpWorker::start(960, 540);
    // Flag readings for five wake-ups; the stop is seen at the third.
    let stops = [false, false, true, false, false];
    let expected_warp = [true, true, false, false, false];
    for k in 0..stops.len() {
        let warped = w.step(stops[k]);
        assert_eq!(warped, expected_warp[k], "wake-up {}", k);
    }
    assert!(w.stopped);
}

#[test]
fn target_never_changes() {
    let mut w = WarpWorker::start(2880, 540);
    for stop in [false, true, false] {
        w.step(stop);
        assert_eq!((w.target_x, w.target_y), (2880, 540));
    }
}

#[test]
fn worker_without_stop_keeps_warping() {
    let mut w = WarpWorker::start(0, 0);
    for _ in 0..10 {
        assert!(w.step(false));
    }
    assert!(!w.stopped);
}
