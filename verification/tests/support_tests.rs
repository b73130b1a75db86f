use drone_convoy::api::{parse_env_flag, ApiConfig, ApiError};
use drone_convoy::convoy::{ConvoyManager, Formation};
use drone_convoy::cv::{CameraCalibration, CvEngine, SimulatedDrone, SimulatedFrame};
use drone_convoy::cvconfig::CvConfig;
use drone_convoy::cv::{HaloDetector, OverlayRenderer};
use drone_convoy::domain::{BoundingBox, DetectedHalo, Drone, DroneId, DroneStatus, TrackingResult};
use drone_convoy::geo::GeoPos;
use drone_convoy::metrics::{DurationHistogram, MetricsCollector};
use drone_convoy::p2p::{DroneMessage, DroneNetwork, MessageType, P2pConfig, PeerInfo};
use drone_convoy::persist::{get_migrations, telemetry_row, DbConfig};
use drone_convoy::state::{drone_snapshot, TrackerState, TrackingEngine};

#[test]
fn test_db_config_default() {
    let config = DbConfig::default();
    assert_eq!(config.hosts.len(), 1);
    assert_eq!(config.keyspace, "drone_convoy");
}

#[test]
fn test_db_config_docker() {
    let config = DbConfig::docker();
    assert_eq!(config.hosts.len(), 3);
    assert!(config.hosts[0].contains("scylla-node1"));
}

#[test]
fn test_migrations_ordered() {
    let migrations = get_migrations();
    let mut last_version = 0;

    for m in migrations {
        assert!(m.version > last_version, "Migrations must be ordered by version");
        last_version = m.version;
    }
}

#[test]
fn test_telemetry_row_fields() {
    let id = DroneId::new("REAPER-01");
    let pos = GeoPos::new(34_555_300, 69_207_500, 3_000_000);
    let t = drone_convoy::domain::Telemetry::with_values(50, 60, 70, 35_000, 9_000);
    let row = telemetry_row(&id, &pos, &t, Some(5));
    assert_eq!(row.drone_id, "REAPER-01");
    assert_eq!(row.lat_udeg, 34_555_300);
    assert_eq!(row.battery_level, 50);
    assert_eq!(row.mission_id, Some(5));
}

#[test]
fn test_env_flags() {
    assert!(parse_env_flag("1"));
    assert!(parse_env_flag("true"));
    assert!(!parse_env_flag("0"));
    assert!(!parse_env_flag("yes"));
    assert!(!parse_env_flag("TRUE"));
}

#[test]
fn test_api_defaults_and_errors() {
    let config = ApiConfig::default();
    assert_eq!(config.api_port, 3000);
    assert_eq!(config.ws_port, 9090);

    let e = ApiError::not_found("missing");
    assert_eq!(e.status_code(), 404);
    assert_eq!(ApiError::bad_request("x").status_code(), 400);
    assert_eq!(ApiError::internal("x").status_code(), 500);
}

#[test]
fn test_message_creation() {
    let msg = DroneMessage::heartbeat(DroneId::new("REAPER-01"));
    assert!(matches!(msg.message_type, MessageType::Heartbeat));
}

#[test]
fn test_ttl() {
    let mut msg = DroneMessage::heartbeat(DroneId::new("REAPER-01"));
    assert_eq!(msg.ttl, 5);

    assert!(msg.decrement_ttl());
    assert_eq!(msg.ttl, 4);

    msg.ttl = 0;
    assert!(!msg.decrement_ttl());
}

#[test]
fn test_peer_management() {
    let mut network = DroneNetwork::new(P2pConfig::default());

    let info = PeerInfo {
        peer_id: "peer-alpha".to_string(),
        drone_id: Some(DroneId::new("REAPER-01")),
        addresses: Vec::new(),
        last_seen_ms: 1000,
    };

    network.add_peer("peer-alpha", info);
    assert_eq!(network.peer_count(), 1);
    assert!(network.is_peer_connected("peer-alpha"));

    network.remove_peer("peer-alpha");
    assert_eq!(network.peer_count(), 0);
}

#[test]
fn test_statistics() {
    let mut network = DroneNetwork::new(P2pConfig::default());

    network.record_message_sent(100);
    network.record_message_sent(200);
    network.record_message_received(150);

    let stats = network.get_stats();
    assert_eq!(stats.messages_sent, 2);
    assert_eq!(stats.bytes_sent, 300);
    assert_eq!(stats.messages_received, 1);
    assert_eq!(stats.bytes_received, 150);
}

#[test]
fn test_convoy_creation() {
    let convoy = ConvoyManager::new();
    assert_eq!(convoy.get_formation(), Formation::Line);
    assert!(convoy.get_leader().is_none());
}

#[test]
fn test_formation_change() {
    let mut convoy = ConvoyManager::new();
    convoy.set_formation(Formation::Vee);
    assert_eq!(convoy.get_formation(), Formation::Vee);
}

#[test]
fn test_offset_calculation() {
    let mut convoy = ConvoyManager::new();
    convoy.set_order(vec![
        DroneId::new("REAPER-01"),
        DroneId::new("REAPER-02"),
        DroneId::new("REAPER-03"),
    ]);

    let offset1 = convoy.get_offset(&DroneId::new("REAPER-01"));
    assert!(offset1.is_some());
    assert_eq!(offset1.unwrap().longitudinal_mm, 0); // Leader.

    let offset2 = convoy.get_offset(&DroneId::new("REAPER-02"));
    assert!(offset2.is_some());
    assert!(offset2.unwrap().longitudinal_mm > 0); // Behind the leader.
}

#[test]
fn test_detector_creation() {
    let config = CvConfig::default();
    let detector = HaloDetector::new(&config);
    assert!(detector.is_ok());
}

#[test]
fn test_renderer_creation() {
    let config = CvConfig::default();
    let renderer = OverlayRenderer::new(&config);
    assert!(renderer.is_ok());
}

#[test]
fn test_format_overlay_text() {
    let config = CvConfig::default();
    let renderer = OverlayRenderer::new(&config).unwrap();

    let results = vec![TrackingResult {
        drone_id: DroneId::new("REAPER-01"),
        tracking_id: 1,
        bbox: BoundingBox::new(100, 100, 60, 60),
        halo: Some(DetectedHalo::new(130, 130, 30)),
        estimated_position: Some(GeoPos::new(34_555_300, 69_207_500, 0)),
        confidence_ppm: 950_000,
        frame_timestamp_ms: 0,
    }];

    let text = renderer.format_overlay_text(&results);
    assert!(text.contains("REAPER-01"));
    assert!(text.contains("34.5553"));
    assert!(text.contains("95.0%"));
}

#[test]
fn test_cv_engine_creation() {
    let engine = CvEngine::new();
    assert!(engine.is_ok());
}

#[test]
fn test_geo_projection() {
    let cal = CameraCalibration::default();
    // The centre pixel projects to the camera position.
    let pos = drone_convoy::cv::project_to_geo(640, 360, &cal);
    assert!((pos.lat_udeg - 34_555_300).abs() < 10_000);
    assert!((pos.lng_udeg - 69_207_500).abs() < 10_000);
}

#[test]
fn test_simulated_frame_processing() {
    let engine = CvEngine::new().unwrap();

    let frame = SimulatedFrame {
        width: 1280,
        height: 720,
        drones: vec![
            SimulatedDrone {
                id: DroneId::new("REAPER-01"),
                pixel_x: 400,
                pixel_y: 300,
                halo_radius: 30,
            },
            SimulatedDrone {
                id: DroneId::new("REAPER-02"),
                pixel_x: 800,
                pixel_y: 400,
                halo_radius: 25,
            },
        ],
    };

    let results = engine.process_simulated_frame(&frame, 1000);
    assert_eq!(results.len(), 2);
    assert!(results[0].halo.is_some());
    assert!(results[0].estimated_position.is_some());
}

#[test]
fn test_engine_creation() {
    let engine = TrackingEngine::new();
    let stats = engine.get_stats();
    assert_eq!(stats.updates_processed, 0);
}

#[test]
fn test_update_processing() {
    let mut engine = TrackingEngine::new();
    engine.process_update(&DroneId::new("REAPER-01"), 1000);
    let stats = engine.get_stats();
    assert_eq!(stats.updates_processed, 1);
}

#[test]
fn test_stale_detection() {
    let mut engine = TrackingEngine::new();
    engine.process_update(&DroneId::new("REAPER-01"), 1_000);
    let stale = engine.check_stale_drones(30_000, 61_000);
    assert_eq!(stale.len(), 1);
    assert_eq!(stale[0].as_str(), "REAPER-01");
}

#[test]
fn test_empty_state() {
    let state = TrackerState::empty(0);
    assert!(state.drones.is_empty());
    assert!(state.mission.is_none());
}

#[test]
fn test_drone_snapshot() {
    let drone = Drone::new("REAPER-01", "Alpha");
    let snapshot = drone_snapshot(&drone);

    assert_eq!(snapshot.id, "REAPER-01");
    assert_eq!(snapshot.callsign, "Alpha");
    assert_eq!(snapshot.status, "STANDBY");
}

#[test]
fn test_state_from_data() {
    let drones = vec![
        Drone::new("REAPER-01", "Alpha"),
        Drone::new("REAPER-02", "Bravo"),
    ];

    let state = TrackerState::from_data(&drones, &None, &Vec::new(), 0);

    assert_eq!(state.drones.len(), 2);
    assert_eq!(state.stats.drone_count, 2);
    assert_eq!(state.stats.active_count, 2);
}

#[test]
fn test_operational_flags() {
    let mut drone = Drone::new("REAPER-01", "Alpha");
    assert!(drone.is_operational());
    drone.status = DroneStatus::Offline;
    assert!(!drone.is_operational());
    drone.status = DroneStatus::Maintenance;
    assert!(!drone.is_operational());
}

#[test]
fn test_metrics_creation() {
    let metrics = MetricsCollector::new();
    assert_eq!(metrics.drone_count, 0);
}

#[test]
fn test_metrics_export() {
    let mut metrics = MetricsCollector::new();

    metrics.set_drone_count(12);
    metrics.set_ws_connections(5);
    metrics.set_mission_active(true);

    let export = metrics.export();
    assert!(export.contains("drone_convoy_drones_total 12"));
    assert!(export.contains("drone_convoy_ws_connections 5"));
    assert!(export.contains("drone_convoy_mission_active 1"));
}

#[test]
fn test_drone_metrics() {
    let mut metrics = MetricsCollector::new();

    let drone = Drone::new("REAPER-01", "Alpha Lead");
    metrics.update_drone(&drone);

    let export = metrics.export();
    assert!(export.contains("REAPER-01"));
}

#[test]
fn p2p_test_config_defaults() {
    let config = P2pConfig::default();
    assert!(config.mdns_enabled);
    assert_eq!(config.gossip_topic, "drone-convoy");
    assert_eq!(config.heartbeat_interval_ms, 1000);
}

#[test]
fn p2p_test_drone_registration() {
    let mut network = DroneNetwork::new(P2pConfig::default());
    network.register_drone(DroneId::new("REAPER-01"), "peer-alpha");
    assert_eq!(
        network.get_drone_peer(&DroneId::new("REAPER-01")).as_deref(),
        Some("peer-alpha")
    );
    assert!(network.get_drone_peer(&DroneId::new("REAPER-99")).is_none());
}

#[test]
fn test_duration_histogram() {
    let mut h = DurationHistogram::new();
    h.observe_us(500);
    h.observe_us(30_000);
    h.observe_us(2_000_000);
    assert_eq!(h.total_count, 3);
    assert_eq!(h.sum_us, 2_030_500);
    // The half-millisecond observation lands in every bucket; the
    // two-second one in none.
    assert_eq!(h.counts[0], 1);
    assert_eq!(h.counts[8], 2);
}

#[test]
fn test_metrics_frame_recording() {
    let mut metrics = MetricsCollector::new();
    metrics.record_cv_frame(3, 12_000);
    metrics.record_cv_frame(1, 8_000);
    assert_eq!(metrics.cv_frames_processed, 2);
    assert_eq!(metrics.cv_detections_total, 4);
    assert_eq!(metrics.cv_processing.total_count, 2);
}
