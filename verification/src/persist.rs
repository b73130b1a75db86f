//! Persistence contract: configuration, errors, schema migrations and the
//! row values handed to the column store.
//!
//! The wire driver lives outside the library; here are the parts that can
//! be stated exactly: what a row holds for a given record, and that the
//! migrations are ordered.

use vstd::prelude::*;
use crate::domain::{DroneId, Telemetry};
use crate::geo::GeoPos;

verus! {

/// Database configuration.
#[derive(Clone, Debug)]
pub struct DbConfig {
    /// Contact points, `host:port`.
    pub hosts: Vec<String>,
    pub keyspace: String,
    pub connection_timeout_ms: u64,
    pub query_timeout_ms: u64,
    pub ssl_enabled: bool,
}

impl Default for DbConfig {
    fn default() -> (r: DbConfig)
        ensures
            r.hosts@.len() == 1,
            r.keyspace@ == "drone_convoy"@,
            r.connection_timeout_ms == 10_000,
            r.query_timeout_ms == 5_000,
            !r.ssl_enabled,
    {
        let mut hosts: Vec<String> = Vec::new();
        hosts.push("127.0.0.1:9042".to_owned());
        DbConfig {
            hosts,
            keyspace: "drone_convoy".to_owned(),
            connection_timeout_ms: 10_000,
            query_timeout_ms: 5_000,
            ssl_enabled: false,
        }
    }
}

impl DbConfig {
    /// The three-node cluster configuration used under composition.
    pub fn docker() -> (r: DbConfig)
        ensures
            r.hosts@.len() == 3,
            r.hosts@[0]@ == "scylla-node1:9042"@,
            r.hosts@[1]@ == "scylla-node2:9042"@,
            r.hosts@[2]@ == "scylla-node3:9042"@,
            r.keyspace@ == "drone_convoy"@,
    {
        let mut hosts: Vec<String> = Vec::new();
        hosts.push("scylla-node1:9042".to_owned());
        hosts.push("scylla-node2:9042".to_owned());
        hosts.push("scylla-node3:9042".to_owned());
        DbConfig {
            hosts,
            keyspace: "drone_convoy".to_owned(),
            connection_timeout_ms: 10_000,
            query_timeout_ms: 5_000,
            ssl_enabled: false,
        }
    }
}

/// Persistence errors.
#[derive(Clone, Debug)]
pub enum DbError {
    Connection(String),
    Query(String),
    Serialization(String),
    NotFound(String),
    Duplicate(String),
    Migration(String),
    Configuration(String),
    Timeout(String),
}

impl DbError {
    pub fn not_found(msg: &str) -> (r: DbError)
        ensures
            r matches DbError::NotFound(m) && m@ == msg@,
    {
        DbError::NotFound(msg.to_owned())
    }

    pub fn query(msg: &str) -> (r: DbError)
        ensures
            r matches DbError::Query(m) && m@ == msg@,
    {
        DbError::Query(msg.to_owned())
    }
}

/// One schema migration: its version, name and statement text.
#[derive(Clone, Debug)]
pub struct Migration {
    pub version: i32,
    pub name: String,
    pub cql: String,
}

/// All migrations, ordered by strictly increasing version.
pub fn get_migrations() -> (r: Vec<Migration>)
    ensures
        r@.len() == 3,
        forall|i: int, j: int| 0 <= i < j < r@.len() ==> r@[i].version < r@[j].version,
        r@[0].version == 1,
        r@[1].version == 2,
        r@[2].version == 3,
        r@[0].name@ == "create_drone_telemetry_index"@,
        r@[1].name@ == "create_alerts_severity_index"@,
        r@[2].name@ == "create_cv_tracking_confidence_index"@,
        forall|i: int| 0 <= i < r@.len() ==> (#[trigger] r@[i]).name@.len() > 0,
{
    proof {
        reveal_strlit("create_drone_telemetry_index");
        reveal_strlit("create_alerts_severity_index");
        reveal_strlit("create_cv_tracking_confidence_index");
    }
    let mut out: Vec<Migration> = Vec::new();
    out.push(
        Migration {
            version: 1,
            name: "create_drone_telemetry_index".to_owned(),
            cql:
                "CREATE INDEX IF NOT EXISTS idx_telemetry_mission ON drone_telemetry (mission_id)".to_owned(),
        },
    );
    out.push(
        Migration {
            version: 2,
            name: "create_alerts_severity_index".to_owned(),
            cql: "CREATE INDEX IF NOT EXISTS idx_alerts_severity ON alerts (severity)".to_owned(),
        },
    );
    out.push(
        Migration {
            version: 3,
            name: "create_cv_tracking_confidence_index".to_owned(),
            cql:
                "CREATE INDEX IF NOT EXISTS idx_cv_confidence ON cv_tracking (confidence)".to_owned(),
        },
    );
    out
}

/// One telemetry row as appended to the store.
#[derive(Clone, Debug)]
pub struct TelemetryRow {
    pub drone_id: String,
    pub timestamp_ms: i64,
    pub lat_udeg: i64,
    pub lng_udeg: i64,
    pub alt_mm: i64,
    pub heading_cdeg: u32,
    pub speed_ckmh: u32,
    pub battery_level: i32,
    pub fuel_level: i32,
    pub system_health: i32,
    pub temperature_cc: i32,
    pub signal_strength: i32,
    pub mission_id: Option<u128>,
}

/// Builds the telemetry row for one sample: every field carries the
/// sample's value.
pub fn telemetry_row(
    drone_id: &DroneId,
    position: &GeoPos,
    telemetry: &Telemetry,
    mission_id: Option<u128>,
) -> (r: TelemetryRow)
    ensures
        r.drone_id@ == drone_id.0@,
        r.timestamp_ms == telemetry.timestamp_ms,
        r.lat_udeg == position.lat_udeg,
        r.lng_udeg == position.lng_udeg,
        r.alt_mm == position.alt_mm,
        r.heading_cdeg == telemetry.heading_cdeg,
        r.speed_ckmh == telemetry.speed_ckmh,
        r.battery_level == telemetry.battery_level as i32,
        r.fuel_level == telemetry.fuel_level as i32,
        r.system_health == telemetry.system_health as i32,
        r.signal_strength == telemetry.signal_strength as i32,
        r.mission_id == mission_id,
{
    TelemetryRow {
        drone_id: drone_id.0.clone(),
        timestamp_ms: telemetry.timestamp_ms,
        lat_udeg: position.lat_udeg,
        lng_udeg: position.lng_udeg,
        alt_mm: position.alt_mm,
        heading_cdeg: telemetry.heading_cdeg,
        speed_ckmh: telemetry.speed_ckmh,
        battery_level: telemetry.battery_level as i32,
        fuel_level: telemetry.fuel_level as i32,
        system_health: telemetry.system_health as i32,
        temperature_cc: telemetry.temperature_cc,
        signal_strength: telemetry.signal_strength as i32,
        mission_id,
    }
}

/// One waypoint arrival row.
#[derive(Clone, Debug)]
pub struct WaypointEventRow {
    pub mission_id: u128,
    pub drone_id: String,
    pub waypoint_id: String,
    pub waypoint_name: String,
    pub lat_udeg: i64,
    pub lng_udeg: i64,
    pub event_type: String,
    pub speed_ckmh: u32,
    pub alt_mm: i64,
    pub heading_cdeg: u32,
}

/// Builds the row recording a waypoint arrival.
pub fn waypoint_event_row(
    mission_id: u128,
    drone_id: &DroneId,
    waypoint_id: &crate::domain::WaypointId,
    waypoint_name: &str,
    position: &GeoPos,
    speed_ckmh: u32,
    heading_cdeg: u32,
) -> (r: WaypointEventRow)
    ensures
        r.mission_id == mission_id,
        r.drone_id@ == drone_id.0@,
        r.waypoint_id@ == waypoint_id.0@,
        r.waypoint_name@ == waypoint_name@,
        r.lat_udeg == position.lat_udeg,
        r.lng_udeg == position.lng_udeg,
        r.event_type@ == "ARRIVAL"@,
        r.speed_ckmh == speed_ckmh,
        r.alt_mm == position.alt_mm,
        r.heading_cdeg == heading_cdeg,
{
    WaypointEventRow {
        mission_id,
        drone_id: drone_id.0.clone(),
        waypoint_id: waypoint_id.0.clone(),
        waypoint_name: waypoint_name.to_owned(),
        lat_udeg: position.lat_udeg,
        lng_udeg: position.lng_udeg,
        event_type: "ARRIVAL".to_owned(),
        speed_ckmh,
        alt_mm: position.alt_mm,
        heading_cdeg,
    }
}

/// One visual-tracking row.
#[derive(Clone, Debug)]
pub struct TrackingRow {
    pub drone_id: String,
    pub frame_timestamp_ms: i64,
    pub bbox_x: i32,
    pub bbox_y: i32,
    pub bbox_width: i32,
    pub bbox_height: i32,
    pub tracking_id: u32,
    pub confidence_ppm: u32,
    pub halo_detected: bool,
    pub halo_center_x: i32,
    pub halo_center_y: i32,
    pub halo_radius: i32,
    pub est_lat_udeg: Option<i64>,
    pub est_lng_udeg: Option<i64>,
}

/// Builds the row recording one tracking result.
pub fn tracking_row(result: &crate::domain::TrackingResult) -> (r: TrackingRow)
    ensures
        r.drone_id@ == result.drone_id.0@,
        r.frame_timestamp_ms == result.frame_timestamp_ms,
        r.tracking_id == result.tracking_id,
        r.confidence_ppm == result.confidence_ppm,
        r.halo_detected == (result.halo is Some),
        (r.est_lat_udeg is Some) <==> (result.estimated_position is Some),
{
    let (halo_detected, hx, hy, hr): (bool, i32, i32, i32) = match &result.halo {
        Some(h) => (true, h.center_x, h.center_y, h.radius),
        None => (false, 0, 0, 0),
    };
    let (elat, elng): (Option<i64>, Option<i64>) = match &result.estimated_position {
        Some(p) => (Some(p.lat_udeg), Some(p.lng_udeg)),
        None => (None, None),
    };
    TrackingRow {
        drone_id: result.drone_id.0.clone(),
        frame_timestamp_ms: result.frame_timestamp_ms,
        bbox_x: result.bbox.x,
        bbox_y: result.bbox.y,
        bbox_width: result.bbox.width,
        bbox_height: result.bbox.height,
        tracking_id: result.tracking_id,
        confidence_ppm: result.confidence_ppm,
        halo_detected,
        halo_center_x: hx,
        halo_center_y: hy,
        halo_radius: hr,
        est_lat_udeg: elat,
        est_lng_udeg: elng,
    }
}

} // verus!
