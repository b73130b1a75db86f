use drone_convoy::domain::{Drone, DroneId, Mission, Telemetry, Waypoint};
use drone_convoy::events::{EventPayload, EventType};
use drone_convoy::fleet::{DroneTracker, TrackerConfig};
use drone_convoy::geo::GeoPos;

fn mission_with_route() -> Mission {
    let mut mission = Mission::new("Convoy Route");
    mission.add_waypoint(Waypoint::new("WP1", "A", 34_500_000, 69_200_000));
    mission.add_waypoint(Waypoint::new("WP2", "B", 34_600_000, 69_100_000));
    mission.add_waypoint(Waypoint::new("WP3", "C", 34_700_000, 69_000_000));
    mission.assign_drone(DroneId::new("REAPER-01"));
    mission.start();
    mission
}

#[test]
fn lib_test_tracker_creation() {
    let config = TrackerConfig {
        p2p_enabled: false,
        db_enabled: false,
        ..TrackerConfig::default()
    };
    let tracker = DroneTracker::new(config);
    assert_eq!(tracker.drone_count(), 0);
    assert!(!tracker.is_running());
}

#[test]
fn lib_test_drone_registration() {
    let config = TrackerConfig {
        p2p_enabled: false,
        db_enabled: false,
        ..TrackerConfig::default()
    };
    let mut tracker = DroneTracker::new(config);

    let drone = Drone::new("REAPER-01", "Alpha Lead");
    tracker.register_drone(drone);

    assert_eq!(tracker.drone_count(), 1);
    assert!(tracker.get_drone(&DroneId::new("REAPER-01")).is_some());
}

#[test]
fn test_position_update() {
    let config = TrackerConfig {
        p2p_enabled: false,
        db_enabled: false,
        ..TrackerConfig::default()
    };
    let mut tracker = DroneTracker::new(config);
    tracker.register_drone(Drone::new("REAPER-01", "Alpha Lead"));

    let position = GeoPos::new(34_555_300, 69_207_500, 3_000_000);
    let telemetry = Telemetry::default();

    let outcome =
        tracker.update_drone_position(&DroneId::new("REAPER-01"), &position, &telemetry, 1000);
    assert!(!outcome.events.is_empty());

    let record = tracker.get_drone(&DroneId::new("REAPER-01")).unwrap();
    assert_eq!(record.drone.position.lat_udeg, 34_555_300);
}

#[test]
fn test_unknown_drone_dropped() {
    let mut tracker = DroneTracker::new(TrackerConfig::default());
    let outcome = tracker.update_drone_position(
        &DroneId::new("GHOST-99"),
        &GeoPos::new(0, 0, 0),
        &Telemetry::default(),
        1000,
    );
    assert!(outcome.events.is_empty());
    assert!(outcome.alerts.is_empty());
}

#[test]
fn test_waypoint_advancement() {
    // Threshold one kilometre; arriving at A then B emits the two
    // waypoint events and advances the index each time.
    let config = TrackerConfig {
        waypoint_threshold_m: 1000,
        ..TrackerConfig::default()
    };
    let mut tracker = DroneTracker::new(config);
    tracker.register_drone(Drone::new("REAPER-01", "Alpha Lead"));
    tracker.set_mission(mission_with_route());

    let id = DroneId::new("REAPER-01");
    let outcome1 = tracker.update_drone_position(
        &id,
        &GeoPos::new(34_500_000, 69_200_000, 0),
        &Telemetry::default(),
        1000,
    );
    let reached1: Vec<_> = outcome1
        .events
        .iter()
        .filter(|e| e.event_type == EventType::WaypointReached)
        .collect();
    assert_eq!(reached1.len(), 1);
    match &reached1[0].payload {
        EventPayload::Waypoint(w) => assert_eq!(w.waypoint_id.0, "WP1"),
        _ => panic!("wrong payload"),
    }
    assert_eq!(tracker.get_drone(&id).unwrap().waypoint_index, 1);

    let outcome2 = tracker.update_drone_position(
        &id,
        &GeoPos::new(34_600_000, 69_100_000, 0),
        &Telemetry::default(),
        2000,
    );
    let reached2: Vec<_> = outcome2
        .events
        .iter()
        .filter(|e| e.event_type == EventType::WaypointReached)
        .collect();
    assert_eq!(reached2.len(), 1);
    match &reached2[0].payload {
        EventPayload::Waypoint(w) => assert_eq!(w.waypoint_id.0, "WP2"),
        _ => panic!("wrong payload"),
    }
    assert_eq!(tracker.get_drone(&id).unwrap().waypoint_index, 2);
}

#[test]
fn test_battery_alert_levels() {
    // Warning threshold 30, critical 15.
    let mut tracker = DroneTracker::new(TrackerConfig::default());
    tracker.register_drone(Drone::new("REAPER-01", "Alpha Lead"));
    let id = DroneId::new("REAPER-01");
    let pos = GeoPos::new(34_500_000, 69_200_000, 0);

    // Battery 40: no battery alert.
    let t40 = Telemetry::with_values(40, 90, 100, 0, 0);
    let o40 = tracker.update_drone_position(&id, &pos, &t40, 1000);
    assert!(o40
        .alerts
        .iter()
        .all(|a| !matches!(a.alert_type, drone_convoy::domain::AlertType::BatteryLow)));

    // Battery 28: a warning, with the literal percentage in the message.
    let t28 = Telemetry::with_values(28, 90, 100, 0, 0);
    let o28 = tracker.update_drone_position(&id, &pos, &t28, 2000);
    let warn: Vec<_> = o28
        .alerts
        .iter()
        .filter(|a| {
            matches!(a.alert_type, drone_convoy::domain::AlertType::BatteryLow)
                && a.severity == drone_convoy::domain::AlertSeverity::Warning
        })
        .collect();
    assert_eq!(warn.len(), 1);
    assert!(warn[0].message.contains("28"));

    // Battery 10: critical.
    let t10 = Telemetry::with_values(10, 90, 100, 0, 0);
    let o10 = tracker.update_drone_position(&id, &pos, &t10, 3000);
    let crit: Vec<_> = o10
        .alerts
        .iter()
        .filter(|a| {
            matches!(a.alert_type, drone_convoy::domain::AlertType::BatteryLow)
                && a.severity == drone_convoy::domain::AlertSeverity::Critical
        })
        .collect();
    assert_eq!(crit.len(), 1);
    assert!(crit[0].message.contains("10"));
}

#[test]
fn test_update_event_timestamps_uniform() {
    // Every event of one update carries the update's timestamp, so the
    // emitted sequence is monotonically non-decreasing.
    let config = TrackerConfig {
        waypoint_threshold_m: 1000,
        ..TrackerConfig::default()
    };
    let mut tracker = DroneTracker::new(config);
    tracker.register_drone(Drone::new("REAPER-01", "Alpha Lead"));
    tracker.set_mission(mission_with_route());

    let outcome = tracker.update_drone_position(
        &DroneId::new("REAPER-01"),
        &GeoPos::new(34_500_000, 69_200_000, 0),
        &Telemetry::default(),
        7777,
    );
    assert!(outcome.events.len() >= 2);
    for w in outcome.events.windows(2) {
        assert!(w[0].timestamp_ms <= w[1].timestamp_ms);
    }
    assert!(outcome.events.iter().all(|e| e.timestamp_ms == 7777));
    // The position update comes last.
    assert_eq!(
        outcome.events.last().unwrap().event_type,
        EventType::DronePositionUpdated
    );
}

#[test]
fn test_history_bounded() {
    // The position history never exceeds one hundred samples.
    let mut tracker = DroneTracker::new(TrackerConfig::default());
    tracker.register_drone(Drone::new("REAPER-01", "Alpha Lead"));
    let id = DroneId::new("REAPER-01");
    for i in 0..150i64 {
        let pos = GeoPos::new(34_500_000 + i, 69_200_000, 0);
        let _ = tracker.update_drone_position(&id, &pos, &Telemetry::default(), 1000 + i);
    }
    let record = tracker.get_drone(&id).unwrap();
    assert_eq!(record.position_history.len(), 100);
    // The newest sample is the last one fed.
    assert_eq!(record.position_history.last().unwrap().1.lat_udeg, 34_500_149);
}

#[test]
fn test_fleet_stale_detection() {
    let mut tracker = DroneTracker::new(TrackerConfig::default());
    tracker.register_drone(Drone::new("REAPER-01", "Alpha Lead"));
    let id = DroneId::new("REAPER-01");
    let _ = tracker.update_drone_position(
        &id,
        &GeoPos::new(34_500_000, 69_200_000, 0),
        &Telemetry::default(),
        1_000,
    );
    // Sixty seconds later with a thirty-second timeout, the drone is stale.
    let stale = tracker.check_stale_drones(30_000, 61_000);
    assert_eq!(stale.len(), 1);
}

#[test]
fn test_start_stop() {
    let mut tracker = DroneTracker::new(TrackerConfig::default());
    tracker.start();
    assert!(tracker.is_running());
    tracker.stop();
    assert!(!tracker.is_running());
}

#[test]
fn test_registration_is_idempotent() {
    let mut tracker = DroneTracker::new(TrackerConfig::default());
    tracker.register_drone(Drone::new("REAPER-01", "Alpha Lead"));
    let id = DroneId::new("REAPER-01");
    let _ = tracker.update_drone_position(
        &id,
        &GeoPos::new(34_500_000, 69_200_000, 0),
        &Telemetry::default(),
        1_000,
    );
    // Registering the same id again neither duplicates it nor resets it.
    tracker.register_drone(Drone::new("REAPER-01", "Alpha Lead"));
    assert_eq!(tracker.drone_count(), 1);
    let record = tracker.get_drone(&id).unwrap();
    assert_eq!(record.position_history.len(), 1);
    assert_eq!(record.drone.position.lat_udeg, 34_500_000);
}

#[test]
fn test_alert_messages_and_no_extra_alerts() {
    let mut tracker = DroneTracker::new(TrackerConfig::default());
    tracker.register_drone(Drone::new("REAPER-01", "Alpha Lead"));
    let id = DroneId::new("REAPER-01");
    let pos = GeoPos::new(34_500_000, 69_200_000, 0);
    // Healthy battery and fuel: no alert at all.
    let out = tracker.update_drone_position(
        &id,
        &pos,
        &Telemetry::with_values(40, 80, 100, 0, 0),
        1_000,
    );
    assert!(out.alerts.is_empty());
    // A warning-level battery carries the exact message text.
    let out = tracker.update_drone_position(
        &id,
        &pos,
        &Telemetry::with_values(28, 80, 100, 0, 0),
        2_000,
    );
    assert_eq!(out.alerts.len(), 1);
    assert_eq!(out.alerts[0].message, "Battery low: 28%");
    // A critical battery and a critical fuel level give exactly two.
    let out = tracker.update_drone_position(
        &id,
        &pos,
        &Telemetry::with_values(10, 5, 100, 0, 0),
        3_000,
    );
    assert_eq!(out.alerts.len(), 2);
    assert_eq!(out.alerts[0].message, "Battery critical: 10%");
    assert_eq!(out.alerts[1].message, "Fuel critical: 5%");
}

#[test]
fn test_set_mission_resets_assigned_progress() {
    let mut tracker = DroneTracker::new(TrackerConfig::default());
    tracker.register_drone(Drone::new("REAPER-01", "Alpha Lead"));
    let id = DroneId::new("REAPER-01");
    tracker.set_mission(mission_with_route());
    // Arrive at the first waypoint so the index advances.
    let _ = tracker.update_drone_position(
        &id,
        &GeoPos::new(34_500_000, 69_200_000, 0),
        &Telemetry::default(),
        1_000,
    );
    assert_eq!(tracker.get_drone(&id).unwrap().waypoint_index, 1);
    // Installing the mission afresh restarts the route for the drone.
    tracker.set_mission(mission_with_route());
    assert_eq!(tracker.get_drone(&id).unwrap().waypoint_index, 0);
    // The stored mission keeps its route.
    assert_eq!(tracker.get_mission().unwrap().waypoints.len(), 3);
}
