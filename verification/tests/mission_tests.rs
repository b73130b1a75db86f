use drone_convoy::domain::{DroneId, Mission, MissionStatus, Waypoint};
use drone_convoy::geo::GeoPos;
use drone_convoy::mission::MissionExecutor;

fn create_test_mission() -> Mission {
    let mut mission = Mission::new("Test Mission");
    mission.add_waypoint(Waypoint::new("WP1", "Start", 34_500_000, 69_200_000));
    mission.add_waypoint(Waypoint::new("WP2", "Middle", 34_600_000, 69_100_000));
    mission.add_waypoint(Waypoint::new("WP3", "End", 34_700_000, 69_000_000));
    mission.assign_drone(DroneId::new("REAPER-01"));
    mission
}

#[test]
fn test_executor_creation() {
    let executor = MissionExecutor::new();
    assert!(executor.status().is_none());
}

#[test]
fn test_set_mission() {
    let mut executor = MissionExecutor::new();
    executor.set_mission(create_test_mission());

    assert!(executor.status().is_some());
    assert!(executor.get_progress(&DroneId::new("REAPER-01")).is_some());
}

#[test]
fn test_start_mission() {
    let mut executor = MissionExecutor::new();
    executor.set_mission(create_test_mission());
    executor.start(1000);

    assert_eq!(executor.status(), Some(MissionStatus::Active));
}

#[test]
fn test_waypoint_reached() {
    let mut executor = MissionExecutor::new();
    executor.set_mission(create_test_mission());
    executor.start(1000);
    executor.set_threshold_m(1000); // One-kilometre threshold.

    // A position at the first waypoint.
    let result = executor.update_drone_position(
        &DroneId::new("REAPER-01"),
        &GeoPos::new(34_500_000, 69_200_000, 3_000_000),
        40_000,
        2000,
    );

    assert!(result.is_some());
    assert_eq!(result.unwrap().waypoint_name, "Start");
}

#[test]
fn test_waypoint_order() {
    // Arrivals come strictly in route order: first WP1, then WP2.
    let mut executor = MissionExecutor::new();
    executor.set_mission(create_test_mission());
    executor.start(1000);
    executor.set_threshold_m(1000);

    let id = DroneId::new("REAPER-01");
    let r1 = executor
        .update_drone_position(&id, &GeoPos::new(34_500_000, 69_200_000, 0), 40_000, 2000)
        .unwrap();
    assert_eq!(r1.index, 0);
    assert_eq!(r1.waypoint_id.0, "WP1");

    let r2 = executor
        .update_drone_position(&id, &GeoPos::new(34_600_000, 69_100_000, 0), 40_000, 3000)
        .unwrap();
    assert_eq!(r2.index, 1);
    assert_eq!(r2.waypoint_id.0, "WP2");

    let progress = executor.get_progress(&id).unwrap();
    assert_eq!(progress.current_index, 2);
    assert_eq!(progress.waypoints_completed.len(), 2);
    assert_eq!(progress.waypoints_completed[0].0, "WP1");
    assert_eq!(progress.waypoints_completed[1].0, "WP2");
}

#[test]
fn test_far_position_is_no_arrival() {
    let mut executor = MissionExecutor::new();
    executor.set_mission(create_test_mission());
    executor.start(1000);
    executor.set_threshold_m(1000);

    let result = executor.update_drone_position(
        &DroneId::new("REAPER-01"),
        &GeoPos::new(35_500_000, 68_000_000, 0),
        40_000,
        2000,
    );
    assert!(result.is_none());
}

#[test]
fn test_inactive_mission_ignores_updates() {
    let mut executor = MissionExecutor::new();
    executor.set_mission(create_test_mission());
    // Not started: still planning.
    let result = executor.update_drone_position(
        &DroneId::new("REAPER-01"),
        &GeoPos::new(34_500_000, 69_200_000, 0),
        40_000,
        2000,
    );
    assert!(result.is_none());
}

#[test]
fn test_overall_progress() {
    let mut executor = MissionExecutor::new();
    executor.set_mission(create_test_mission());
    executor.start(1000);

    assert_eq!(executor.overall_progress_permille(), 0);
}

#[test]
fn test_is_complete() {
    let mut executor = MissionExecutor::new();
    executor.set_mission(create_test_mission());
    executor.start(1000);
    executor.set_threshold_m(1000);
    assert!(!executor.is_complete());

    let id = DroneId::new("REAPER-01");
    let positions = [
        GeoPos::new(34_500_000, 69_200_000, 0),
        GeoPos::new(34_600_000, 69_100_000, 0),
        GeoPos::new(34_700_000, 69_000_000, 0),
    ];
    for (i, p) in positions.iter().enumerate() {
        let r = executor.update_drone_position(&id, p, 40_000, 2000 + i as i64);
        assert!(r.is_some());
    }
    assert!(executor.is_complete());
}
