use drone_convoy::cvconfig::CvConfig;
use drone_convoy::domain::{DetectedHalo, HaloColor};
use drone_convoy::tracker::{circle_iou_ppm, DroneTracker};

fn halo(x: i32, y: i32, r: i32) -> DetectedHalo {
    DetectedHalo {
        center_x: x,
        center_y: y,
        radius: r,
        color: HaloColor::red(),
        confidence_ppm: 900_000,
    }
}

#[test]
fn tracker_test_tracker_creation() {
    let config = CvConfig::default();
    let tracker = DroneTracker::new(&config);
    assert!(tracker.is_ok());
}

#[test]
fn test_circle_iou() {
    // The same circle overlaps itself completely.
    let iou = circle_iou_ppm(100, 100, 50, 100, 100, 50);
    assert_eq!(iou, 1_000_000);

    // No overlap.
    let iou = circle_iou_ppm(0, 0, 10, 100, 100, 10);
    assert!(iou < 10_000);

    // Partial overlap.
    let iou = circle_iou_ppm(100, 100, 50, 120, 100, 50);
    assert!(iou > 500_000 && iou < 1_000_000);
}

#[test]
fn test_track_creation() {
    let config = CvConfig::default();
    let mut tracker = DroneTracker::new(&config).unwrap();

    let detections = vec![halo(100, 100, 30)];

    // The first update creates a track.
    let _ = tracker.update(&detections).unwrap();
    assert_eq!(tracker.total_count(), 1);

    // Not confirmed yet.
    assert_eq!(tracker.active_count(), 0);

    // More updates confirm it.
    for _ in 0..5 {
        let _ = tracker.update(&detections).unwrap();
    }
    assert_eq!(tracker.active_count(), 1);
}

#[test]
fn test_track_lifecycle() {
    // minFramesToConfirm = 3, maxFramesToSkip = 10 (the defaults).
    let config = CvConfig::default();
    let mut tracker = DroneTracker::new(&config).unwrap();
    let detections = vec![halo(100, 100, 30)];
    let empty: Vec<DetectedHalo> = Vec::new();

    // Three consecutive detections confirm exactly one track.
    let mut exported = Vec::new();
    for _ in 0..3 {
        exported = tracker.update(&detections).unwrap();
    }
    assert_eq!(tracker.active_count(), 1);
    assert_eq!(exported.len(), 1);

    // Ten empty frames: the track coasts, then is retired.
    for _ in 0..10 {
        exported = tracker.update(&empty).unwrap();
    }
    // On the eleventh frame the track is gone and nothing is exported.
    exported = tracker.update(&empty).unwrap();
    assert_eq!(exported.len(), 0);
    assert_eq!(tracker.total_count(), 0);
}

#[test]
fn test_only_confirmed_exported() {
    let config = CvConfig::default();
    let mut tracker = DroneTracker::new(&config).unwrap();
    let detections = vec![halo(500, 500, 40)];

    let exported = tracker.update(&detections).unwrap();
    // One tentative track exists but nothing is exported yet.
    assert_eq!(tracker.total_count(), 1);
    assert_eq!(exported.len(), 0);
}

#[test]
fn test_greedy_association_determinism() {
    // Two tracks at (100,100) and (200,100), radius 30; detections at
    // (102,100) and (198,100): the association pairs each track with its
    // nearby detection.
    let config = CvConfig::default();
    let mut tracker = DroneTracker::new(&config).unwrap();

    let frame1 = vec![halo(100, 100, 30), halo(200, 100, 30)];
    for _ in 0..3 {
        let _ = tracker.update(&frame1).unwrap();
    }
    assert_eq!(tracker.active_count(), 2);

    let frame2 = vec![halo(102, 100, 30), halo(198, 100, 30)];
    let exported = tracker.update(&frame2).unwrap();
    assert_eq!(exported.len(), 2);

    // Track 1 took the detection at 102, track 2 the one at 198.
    let t1 = exported.iter().find(|t| t.tracking_id == 1).unwrap();
    let t2 = exported.iter().find(|t| t.tracking_id == 2).unwrap();
    assert_eq!(t1.last_detection.center_x, 102);
    assert_eq!(t2.last_detection.center_x, 198);
}

#[test]
fn test_single_circle_stream_confirms_one_track() {
    // A stream of frames each seeing the same single circle never creates
    // a second track.
    let config = CvConfig::default();
    let mut tracker = DroneTracker::new(&config).unwrap();
    for i in 0..20i32 {
        // Drift the circle a little each frame, within the overlap gate.
        let frame = vec![halo(100 + i, 100, 30)];
        let _ = tracker.update(&frame).unwrap();
    }
    assert_eq!(tracker.total_count(), 1);
    assert_eq!(tracker.active_count(), 1);
}

#[test]
fn test_max_tracks_cap() {
    let mut config = CvConfig::default();
    config.tracking.max_tracks = 2;
    let mut tracker = DroneTracker::new(&config).unwrap();
    let frame = vec![
        halo(100, 100, 20),
        halo(300, 100, 20),
        halo(500, 100, 20),
        halo(700, 100, 20),
    ];
    let _ = tracker.update(&frame).unwrap();
    assert_eq!(tracker.total_count(), 2);
}
