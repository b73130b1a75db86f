//! The HTTP surface's configuration, errors and response records, and the
//! conversions that fill them from domain values.

use vstd::prelude::*;
use crate::domain::{Drone, Mission};
use crate::persist::DbConfig;
use crate::state::mission_status_label;

verus! {

/// Server configuration.
#[derive(Clone, Debug)]
pub struct ApiConfig {
    pub api_port: u16,
    pub ws_port: u16,
    pub db: DbConfig,
    pub cors_permissive: bool,
    pub cv_enabled: bool,
    pub simulation_mode: bool,
}

impl Default for ApiConfig {
    fn default() -> (r: ApiConfig)
        ensures
            r.api_port == 3000,
            r.ws_port == 9090,
            r.cors_permissive,
            r.cv_enabled,
            r.simulation_mode,
    {
        ApiConfig {
            api_port: 3000,
            ws_port: 9090,
            db: DbConfig::default(),
            cors_permissive: true,
            cv_enabled: true,
            simulation_mode: true,
        }
    }
}

impl ApiConfig {
    /// Configuration used under composition.
    pub fn docker() -> (r: ApiConfig)
        ensures
            r.api_port == 3000,
            r.ws_port == 9090,
            r.db.hosts@.len() == 3,
            r.db.hosts@[0]@ == "scylla-node1:9042"@,
            r.db.hosts@[1]@ == "scylla-node2:9042"@,
            r.db.hosts@[2]@ == "scylla-node3:9042"@,
            r.db.keyspace@ == "drone_convoy"@,
            r.cors_permissive,
            r.cv_enabled,
            r.simulation_mode,
    {
        ApiConfig {
            api_port: 3000,
            ws_port: 9090,
            db: DbConfig::docker(),
            cors_permissive: true,
            cv_enabled: true,
            simulation_mode: true,
        }
    }
}

/// Whether a boolean environment value is on: exactly the strings `"1"`
/// and `"true"`.
pub fn parse_env_flag(value: &str) -> (r: bool)
    ensures
        r == (value@ == "1"@ || value@ == "true"@),
{
    proof {
        reveal_strlit("1");
        reveal_strlit("true");
    }
    let v: String = value.to_owned();
    let one: String = "1".to_owned();
    let tru: String = "true".to_owned();
    let a: bool = v == one;
    let b: bool = v == tru;
    a || b
}

/// API error taxonomy.
#[derive(Clone, Debug)]
pub enum ApiError {
    NotFound(String),
    BadRequest(String),
    Unauthorized(String),
    Forbidden(String),
    Internal(String),
    ServiceUnavailable(String),
    Database(String),
}

impl ApiError {
    pub fn not_found(msg: &str) -> (r: ApiError)
        ensures
            r matches ApiError::NotFound(m) && m@ == msg@,
    {
        ApiError::NotFound(msg.to_owned())
    }

    pub fn bad_request(msg: &str) -> (r: ApiError)
        ensures
            r matches ApiError::BadRequest(m) && m@ == msg@,
    {
        ApiError::BadRequest(msg.to_owned())
    }

    pub fn internal(msg: &str) -> (r: ApiError)
        ensures
            r matches ApiError::Internal(m) && m@ == msg@,
    {
        ApiError::Internal(msg.to_owned())
    }

    /// The HTTP status code the error maps to.
    pub fn status_code(&self) -> (r: u16)
        ensures
            self is NotFound ==> r == 404,
            self is BadRequest ==> r == 400,
            self is Unauthorized ==> r == 401,
            self is Forbidden ==> r == 403,
            self is Internal ==> r == 500,
            self is ServiceUnavailable ==> r == 503,
            self is Database ==> r == 500,
    {
        match self {
            ApiError::NotFound(_) => 404,
            ApiError::BadRequest(_) => 400,
            ApiError::Unauthorized(_) => 401,
            ApiError::Forbidden(_) => 403,
            ApiError::Internal(_) => 500,
            ApiError::ServiceUnavailable(_) => 503,
            ApiError::Database(_) => 500,
        }
    }

    /// The wire label of the error kind.
    pub fn error_label(&self) -> (r: &'static str)
        ensures
            self is NotFound ==> r@ == "not_found"@,
            self is BadRequest ==> r@ == "bad_request"@,
            self is Internal ==> r@ == "internal_error"@,
    {
        match self {
            ApiError::NotFound(_) => "not_found",
            ApiError::BadRequest(_) => "bad_request",
            ApiError::Unauthorized(_) => "unauthorized",
            ApiError::Forbidden(_) => "forbidden",
            ApiError::Internal(_) => "internal_error",
            ApiError::ServiceUnavailable(_) => "service_unavailable",
            ApiError::Database(_) => "database_error",
        }
    }
}

/// Health endpoint body.
#[derive(Clone, Debug)]
pub struct HealthResponse {
    pub status: String,
    pub version: String,
    pub timestamp_ms: i64,
}

/// Status endpoint body.
#[derive(Clone, Debug)]
pub struct StatusResponse {
    pub api: String,
    pub database: String,
    pub cv_engine: String,
    pub websocket_clients: usize,
    pub active_drones: usize,
    pub mission_status: String,
}

/// Subscriber endpoint information body.
#[derive(Clone, Debug)]
pub struct WebSocketInfoResponse {
    pub url: String,
    pub connected_clients: usize,
    pub supported_events: Vec<String>,
}

/// Tracking statistics body.
#[derive(Clone, Copy, Debug)]
pub struct TrackingStatsResponse {
    pub active_tracks: usize,
    pub cv_enabled: bool,
    pub frames_processed: u64,
}

/// Alert body.
#[derive(Clone, Debug)]
pub struct AlertResponse {
    pub id: String,
    pub severity: String,
    pub alert_type: String,
    pub message: String,
    pub drone_id: Option<String>,
    pub acknowledged: bool,
    pub created_at_ms: i64,
}

/// Drone endpoint body, all fields scalar.
#[derive(Clone, Debug)]
pub struct DroneResponse {
    pub id: String,
    pub callsign: String,
    pub status: String,
    pub lat_udeg: i64,
    pub lng_udeg: i64,
    pub alt_mm: i64,
    pub battery_level: u8,
    pub fuel_level: u8,
    pub system_health: u8,
    pub speed_ckmh: u32,
    pub heading_cdeg: u32,
    pub signal_strength: u8,
    pub armed: bool,
    pub current_waypoint: usize,
}

/// Fills the drone body from a drone record.
pub fn drone_to_response(drone: &Drone) -> (r: DroneResponse)
    ensures
        r.id@ == drone.id.0@,
        r.callsign@ == drone.callsign@,
        r.lat_udeg == drone.position.lat_udeg,
        r.lng_udeg == drone.position.lng_udeg,
        r.alt_mm == drone.position.alt_mm,
        r.battery_level == drone.telemetry.battery_level,
        r.fuel_level == drone.telemetry.fuel_level,
        r.system_health == drone.telemetry.system_health,
        r.speed_ckmh == drone.telemetry.speed_ckmh,
        r.heading_cdeg == drone.telemetry.heading_cdeg,
        r.signal_strength == drone.telemetry.signal_strength,
        r.armed == drone.armed,
        r.current_waypoint == drone.current_waypoint_index,
{
    DroneResponse {
        id: drone.id.0.clone(),
        callsign: drone.callsign.clone(),
        status: drone.status.label().to_owned(),
        lat_udeg: drone.position.lat_udeg,
        lng_udeg: drone.position.lng_udeg,
        alt_mm: drone.position.alt_mm,
        battery_level: drone.telemetry.battery_level,
        fuel_level: drone.telemetry.fuel_level,
        system_health: drone.telemetry.system_health,
        speed_ckmh: drone.telemetry.speed_ckmh,
        heading_cdeg: drone.telemetry.heading_cdeg,
        signal_strength: drone.telemetry.signal_strength,
        armed: drone.armed,
        current_waypoint: drone.current_waypoint_index,
    }
}

/// Mission endpoint body.
#[derive(Clone, Debug)]
pub struct MissionResponse {
    pub id: u128,
    pub name: String,
    pub status: String,
    pub waypoint_count: usize,
    pub assigned_drones: usize,
    pub total_distance_m: u64,
}

/// Fills the mission body from a mission record.
pub fn mission_to_response(mission: &Mission) -> (r: MissionResponse)
    requires
        mission.waypoints@.len() <= 100_000_000,
        forall|i: int|
            0 <= i < mission.waypoints@.len() ==> (#[trigger] mission.waypoints@[i]).position.valid(),
    ensures
        r.id == mission.id.0,
        r.name@ == mission.name@,
        r.waypoint_count == mission.waypoints@.len(),
        r.assigned_drones == mission.assigned_drones@.len(),
        r.total_distance_m == crate::domain::spec_route_distance(mission.waypoints@),
{
    MissionResponse {
        id: mission.id.0,
        name: mission.name.clone(),
        status: mission_status_label(mission.status).to_owned(),
        waypoint_count: mission.waypoints.len(),
        assigned_drones: mission.assigned_drones.len(),
        total_distance_m: mission.total_distance_m(),
    }
}

} // verus!
