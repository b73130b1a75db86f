use drone_convoy::domain::{
    level_message, Alert, AlertSeverity, AlertType, BoundingBox, Drone, DroneId, DroneStatus,
    HaloColor, Mission, Telemetry, Waypoint,
};
use drone_convoy::events::{Event, EventPayload, EventType};
use drone_convoy::fmt::{fmt_fixed, fmt_i64, fmt_u64, fmt_u64_pad};

#[test]
fn test_drone_creation() {
    let drone = Drone::new("REAPER-01", "Alpha Lead");
    assert_eq!(drone.id.as_str(), "REAPER-01");
    assert_eq!(drone.callsign, "Alpha Lead");
    assert_eq!(drone.status, DroneStatus::Standby);
    assert!(!drone.armed);
}

#[test]
fn test_telemetry_defaults() {
    let telemetry = Telemetry::default();
    assert_eq!(telemetry.battery_level, 100);
    assert_eq!(telemetry.fuel_level, 100);
    assert_eq!(telemetry.system_health, 100);
}

#[test]
fn test_telemetry_clamping() {
    let t = Telemetry::with_values(150, 120, 110, 40_000, 72_345);
    assert_eq!(t.battery_level, 100);
    assert_eq!(t.fuel_level, 100);
    assert_eq!(t.system_health, 100);
    assert_eq!(t.heading_cdeg, 345);
}

#[test]
fn test_mission_distance() {
    let mut mission = Mission::new("Test Mission");
    mission.add_waypoint(Waypoint::new("WP1", "Start", 34_555_300, 69_207_500));
    mission.add_waypoint(Waypoint::new("WP2", "End", 34_623_400, 69_112_300));

    let distance = mission.total_distance_m();
    assert!(distance > 0);
}

#[test]
fn test_mission_assign_unique() {
    let mut mission = Mission::new("Test Mission");
    mission.assign_drone(DroneId::new("REAPER-01"));
    mission.assign_drone(DroneId::new("REAPER-01"));
    assert_eq!(mission.assigned_drones.len(), 1);
}

#[test]
fn test_bounding_box_center() {
    let bbox = BoundingBox::new(100, 100, 50, 50);
    assert_eq!(bbox.center(), (125, 125));
    assert_eq!(bbox.area(), 2500);
}

#[test]
fn test_halo_color_bgr() {
    let color = HaloColor::red();
    assert_eq!(color.to_bgr(), (0, 0, 255));
}

#[test]
fn test_event_creation() {
    let event = Event::drone_status_changed(
        1000,
        DroneId::new("REAPER-01"),
        DroneStatus::Standby,
        DroneStatus::Moving,
    );

    assert_eq!(event.event_type, EventType::DroneStatusChanged);
    assert_eq!(event.timestamp_ms, 1000);
    match event.payload {
        EventPayload::DroneStatus(p) => {
            assert_eq!(p.old_status, DroneStatus::Standby);
            assert_eq!(p.new_status, DroneStatus::Moving);
        }
        _ => panic!("wrong payload variant"),
    }
}

#[test]
fn test_alert_levels_message() {
    let msg = level_message("Battery low: ", 28);
    assert_eq!(msg, "Battery low: 28%");

    let alert = Alert::new(AlertSeverity::Warning, AlertType::BatteryLow, msg)
        .for_drone(DroneId::new("REAPER-02"));
    assert!(alert.message.contains("28"));
    assert!(!alert.acknowledged);
    assert!(!alert.resolved);
}

#[test]
fn test_decimal_rendering() {
    assert_eq!(fmt_u64(0), "0");
    assert_eq!(fmt_u64(1234567890), "1234567890");
    assert_eq!(fmt_i64(-42), "-42");
    assert_eq!(fmt_u64_pad(7, 4), "0007");
    assert_eq!(fmt_fixed(34_555_300, 1_000_000, 6), "34.555300");
    assert_eq!(fmt_fixed(-1_500_000, 1_000_000, 6), "-1.500000");
}
