use drone_convoy::kalman::{KalmanTracker, KSCALE};

#[test]
fn test_kalman_initialization() {
    let mut tracker = KalmanTracker::new(10_000, 100_000);
    assert!(!tracker.is_initialized());

    tracker.initialize(100 * KSCALE, 200 * KSCALE);
    assert!(tracker.is_initialized());

    let pos = tracker.position();
    assert_eq!(pos.0, 100 * KSCALE);
    assert_eq!(pos.1, 200 * KSCALE);
}

#[test]
fn test_kalman_tracking() {
    let mut tracker = KalmanTracker::new(10_000, 100_000);
    tracker.set_dt(1_000_000); // One-second timestep for easier checking.

    // Simulate an object moving right at 10 pixels per frame.
    for i in 0..10i64 {
        let measured_x = (100 + i * 10) * KSCALE;
        let measured_y = 200 * KSCALE;
        tracker.update(measured_x, measured_y);
    }

    let (vx, vy) = tracker.velocity();
    // Velocity should be approximately 10 pixels per frame.
    assert!(vx > 8 * KSCALE && vx < 12 * KSCALE);
    assert!(vy.abs() < KSCALE);
}

#[test]
fn test_kalman_convergence_under_repeated_measurement() {
    // Zero process noise and a noise-free repeated measurement: the state
    // converges to the measurement and the velocity to zero.
    let mut tracker = KalmanTracker::new(0, 100_000);
    tracker.set_dt(1_000_000);
    for _ in 0..60 {
        tracker.update(300 * KSCALE, 400 * KSCALE);
    }
    let (px, py) = tracker.position();
    let (vx, vy) = tracker.velocity();
    assert!((px - 300 * KSCALE).abs() < KSCALE / 10);
    assert!((py - 400 * KSCALE).abs() < KSCALE / 10);
    assert!(vx.abs() < KSCALE / 10);
    assert!(vy.abs() < KSCALE / 10);
}

#[test]
fn test_kalman_update_count() {
    let mut tracker = KalmanTracker::new(10_000, 100_000);
    assert_eq!(tracker.update_count(), 0);
    tracker.update(5 * KSCALE, 5 * KSCALE);
    assert_eq!(tracker.update_count(), 1);
    tracker.update(5 * KSCALE, 5 * KSCALE);
    assert_eq!(tracker.update_count(), 2);
}
