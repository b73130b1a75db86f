//! Core domain model: identifiers, telemetry, drones, waypoints, missions,
//! detection records and alerts.
//!
//! Percentages are `u8` clamped to 100 on construction; speeds are in
//! centi-km/h, headings in centi-degrees reduced mod 360 degrees,
//! temperatures in centi-degrees Celsius, timestamps in Unix milliseconds,
//! confidences in parts per million.

use vstd::prelude::*;
use crate::geo::GeoPos;
use crate::sys::{fresh_uuid, now_ms};
use crate::fmt::{dec_seq, fmt_u64};

verus! {

/// Unique identifier for a drone, by value.
#[derive(Eq, Debug, Hash)]
pub struct DroneId(pub String);

impl Clone for DroneId {
    fn clone(&self) -> (r: DroneId)
        ensures
            r.0@ == self.0@,
    {
        DroneId(self.0.clone())
    }
}

impl PartialEq for DroneId {
    fn eq(&self, other: &DroneId) -> (r: bool) {
        self.0 == other.0
    }
}

impl vstd::std_specs::cmp::PartialEqSpecImpl for DroneId {
    open spec fn obeys_eq_spec() -> bool {
        true
    }

    open spec fn eq_spec(&self, other: &DroneId) -> bool {
        self.0@ == other.0@
    }
}

impl DroneId {
    pub fn new(id: &str) -> (r: DroneId)
        ensures
            r.0@ == id@,
    {
        DroneId(id.to_owned())
    }

    pub fn from_string(id: String) -> (r: DroneId)
        ensures
            r.0@ == id@,
    {
        DroneId(id)
    }

    pub fn as_str(&self) -> (r: &str)
        ensures
            r@ == self.0@,
    {
        self.0.as_str()
    }
}

/// Unique identifier for a waypoint, by value.
#[derive(Eq, Debug, Hash)]
pub struct WaypointId(pub String);

impl Clone for WaypointId {
    fn clone(&self) -> (r: WaypointId)
        ensures
            r.0@ == self.0@,
    {
        WaypointId(self.0.clone())
    }
}

impl PartialEq for WaypointId {
    fn eq(&self, other: &WaypointId) -> (r: bool) {
        self.0 == other.0
    }
}

impl vstd::std_specs::cmp::PartialEqSpecImpl for WaypointId {
    open spec fn obeys_eq_spec() -> bool {
        true
    }

    open spec fn eq_spec(&self, other: &WaypointId) -> bool {
        self.0@ == other.0@
    }
}

impl WaypointId {
    pub fn new(id: &str) -> (r: WaypointId)
        ensures
            r.0@ == id@,
    {
        WaypointId(id.to_owned())
    }
}

/// Unique identifier for a mission: a UUID carried as its 128-bit value.
#[derive(PartialEq, Eq, Structural, Clone, Copy, Debug, Hash)]
pub struct MissionId(pub u128);

impl MissionId {
    /// A freshly drawn random identifier.
    pub fn new() -> (r: MissionId) {
        MissionId(fresh_uuid())
    }

    pub fn from_uuid(uuid: u128) -> (r: MissionId)
        ensures
            r.0 == uuid,
    {
        MissionId(uuid)
    }
}

/// Operational status of a drone.
#[derive(PartialEq, Eq, Structural, Clone, Copy, Debug)]
pub enum DroneStatus {
    Standby,
    Moving,
    Engaged,
    Rtb,
    Offline,
    Maintenance,
}

impl Default for DroneStatus {
    fn default() -> (r: DroneStatus)
        ensures
            r == DroneStatus::Standby,
    {
        DroneStatus::Standby
    }
}

impl DroneStatus {
    /// The wire label of the status.
    pub fn label(&self) -> (r: &'static str)
        ensures
            *self == DroneStatus::Standby ==> r@ == "STANDBY"@,
            *self == DroneStatus::Moving ==> r@ == "MOVING"@,
            *self == DroneStatus::Engaged ==> r@ == "ENGAGED"@,
            *self == DroneStatus::Rtb ==> r@ == "RTB"@,
            *self == DroneStatus::Offline ==> r@ == "OFFLINE"@,
            *self == DroneStatus::Maintenance ==> r@ == "MAINTENANCE"@,
    {
        match self {
            DroneStatus::Standby => "STANDBY",
            DroneStatus::Moving => "MOVING",
            DroneStatus::Engaged => "ENGAGED",
            DroneStatus::Rtb => "RTB",
            DroneStatus::Offline => "OFFLINE",
            DroneStatus::Maintenance => "MAINTENANCE",
        }
    }
}

/// Airframe type of a drone.
#[derive(PartialEq, Eq, Debug)]
pub enum DroneType {
    Mq9Reaper,
    Mq1Predator,
    Rq4GlobalHawk,
    Mq1CGrayEagle,
    Custom(String),
}

impl Clone for DroneType {
    fn clone(&self) -> (r: DroneType)
        ensures
            (self is Mq9Reaper ==> r is Mq9Reaper),
            (self is Mq1Predator ==> r is Mq1Predator),
            (self is Rq4GlobalHawk ==> r is Rq4GlobalHawk),
            (self is Mq1CGrayEagle ==> r is Mq1CGrayEagle),
            (self matches DroneType::Custom(s) ==> (r matches DroneType::Custom(t) && t@ == s@)),
    {
        match self {
            DroneType::Mq9Reaper => DroneType::Mq9Reaper,
            DroneType::Mq1Predator => DroneType::Mq1Predator,
            DroneType::Rq4GlobalHawk => DroneType::Rq4GlobalHawk,
            DroneType::Mq1CGrayEagle => DroneType::Mq1CGrayEagle,
            DroneType::Custom(s) => DroneType::Custom(s.clone()),
        }
    }
}

impl Default for DroneType {
    fn default() -> (r: DroneType)
        ensures
            r == DroneType::Mq9Reaper,
    {
        DroneType::Mq9Reaper
    }
}

/// Real-time telemetry sample from a drone.
#[derive(Clone, Copy, Debug)]
pub struct Telemetry {
    /// Battery level percentage, clamped to `[0, 100]`.
    pub battery_level: u8,
    /// Fuel level percentage, clamped to `[0, 100]`.
    pub fuel_level: u8,
    /// System health percentage, clamped to `[0, 100]`.
    pub system_health: u8,
    /// Speed in centi-km/h.
    pub speed_ckmh: u32,
    /// Heading in centi-degrees, reduced below 36000.
    pub heading_cdeg: u32,
    /// Signal strength percentage, clamped to `[0, 100]`.
    pub signal_strength: u8,
    /// Internal temperature in centi-degrees Celsius.
    pub temperature_cc: i32,
    /// Time of this reading, Unix milliseconds.
    pub timestamp_ms: i64,
}

impl Telemetry {
    /// All percentage fields stay within 0..=100 and the heading below 360
    /// degrees.
    pub open spec fn wf(self) -> bool {
        self.battery_level <= 100 && self.fuel_level <= 100 && self.system_health <= 100
            && self.signal_strength <= 100 && self.heading_cdeg < 36000
    }

    pub fn new() -> (r: Telemetry)
        ensures
            r.battery_level == 100,
            r.fuel_level == 100,
            r.system_health == 100,
            r.speed_ckmh == 0,
            r.heading_cdeg == 0,
            r.signal_strength == 100,
            r.temperature_cc == 2500,
            r.wf(),
    {
        Telemetry {
            battery_level: 100,
            fuel_level: 100,
            system_health: 100,
            speed_ckmh: 0,
            heading_cdeg: 0,
            signal_strength: 100,
            temperature_cc: 2500,
            timestamp_ms: now_ms(),
        }
    }

    /// Telemetry with the given readings: percentages are clamped to 100
    /// and the heading reduced mod 360 degrees.
    pub fn with_values(battery: u8, fuel: u8, health: u8, speed_ckmh: u32, heading_cdeg: u32) -> (r:
        Telemetry)
        ensures
            r.battery_level == (if battery > 100 { 100u8 } else { battery }),
            r.fuel_level == (if fuel > 100 { 100u8 } else { fuel }),
            r.system_health == (if health > 100 { 100u8 } else { health }),
            r.speed_ckmh == speed_ckmh,
            r.heading_cdeg == heading_cdeg % 36000,
            r.signal_strength == 100,
            r.wf(),
    {
        Telemetry {
            battery_level: if battery > 100 {
                100
            } else {
                battery
            },
            fuel_level: if fuel > 100 {
                100
            } else {
                fuel
            },
            system_health: if health > 100 {
                100
            } else {
                health
            },
            speed_ckmh,
            heading_cdeg: heading_cdeg % 36000,
            signal_strength: 100,
            temperature_cc: 2500,
            timestamp_ms: now_ms(),
        }
    }
}

impl Default for Telemetry {
    fn default() -> (r: Telemetry)
        ensures
            r.battery_level == 100,
            r.fuel_level == 100,
            r.system_health == 100,
            r.speed_ckmh == 0,
            r.heading_cdeg == 0,
            r.signal_strength == 100,
            r.temperature_cc == 2500,
            r.wf(),
    {
        Telemetry::new()
    }
}

/// Complete drone state, including position and latest telemetry.
#[derive(Debug)]
pub struct Drone {
    pub id: DroneId,
    pub callsign: String,
    pub drone_type: DroneType,
    pub position: GeoPos,
    pub telemetry: Telemetry,
    pub status: DroneStatus,
    pub current_waypoint_index: usize,
    pub mission_id: Option<u128>,
    pub armed: bool,
    pub last_update_ms: i64,
}

impl Clone for Drone {
    fn clone(&self) -> (r: Drone)
        ensures
            r.id.0@ == self.id.0@,
            r.callsign@ == self.callsign@,
            r.position == self.position,
            r.telemetry == self.telemetry,
            r.status == self.status,
            r.current_waypoint_index == self.current_waypoint_index,
            r.mission_id == self.mission_id,
            r.armed == self.armed,
            r.last_update_ms == self.last_update_ms,
    {
        Drone {
            id: self.id.clone(),
            callsign: self.callsign.clone(),
            drone_type: self.drone_type.clone(),
            position: self.position,
            telemetry: self.telemetry,
            status: self.status,
            current_waypoint_index: self.current_waypoint_index,
            mission_id: self.mission_id,
            armed: self.armed,
            last_update_ms: self.last_update_ms,
        }
    }
}

impl Drone {
    pub fn new(id: &str, callsign: &str) -> (r: Drone)
        ensures
            r.id.0@ == id@,
            r.callsign@ == callsign@,
            r.drone_type == DroneType::Mq9Reaper,
            r.position == (GeoPos { lat_udeg: 0, lng_udeg: 0, alt_mm: 0 }),
            r.status == DroneStatus::Standby,
            r.current_waypoint_index == 0,
            r.mission_id is None,
            !r.armed,
            r.telemetry.wf(),
    {
        Drone {
            id: DroneId::new(id),
            callsign: callsign.to_owned(),
            drone_type: DroneType::Mq9Reaper,
            position: GeoPos { lat_udeg: 0, lng_udeg: 0, alt_mm: 0 },
            telemetry: Telemetry::new(),
            status: DroneStatus::Standby,
            current_waypoint_index: 0,
            mission_id: None,
            armed: false,
            last_update_ms: now_ms(),
        }
    }

    /// Moves the drone and stamps the update time.
    pub fn update_position(&mut self, new_position: GeoPos, at_ms: i64)
        ensures
            final(self).position == new_position,
            final(self).last_update_ms == at_ms,
            final(self).id == old(self).id,
            final(self).callsign == old(self).callsign,
            final(self).telemetry == old(self).telemetry,
            final(self).status == old(self).status,
            final(self).current_waypoint_index == old(self).current_waypoint_index,
            final(self).mission_id == old(self).mission_id,
            final(self).armed == old(self).armed,
            final(self).drone_type == old(self).drone_type,
    {
        self.position = new_position;
        self.last_update_ms = at_ms;
    }

    /// Whether the battery is critically low (below 15 percent).
    pub fn is_battery_critical(&self) -> (r: bool)
        ensures
            r == (self.telemetry.battery_level < 15),
    {
        self.telemetry.battery_level < 15
    }

    /// A drone is operational unless offline or in maintenance.
    pub fn is_operational(&self) -> (r: bool)
        ensures
            r == (self.status != DroneStatus::Offline && self.status != DroneStatus::Maintenance),
    {
        self.status != DroneStatus::Offline && self.status != DroneStatus::Maintenance
    }
}

/// Kind of waypoint in a route.
#[derive(PartialEq, Eq, Structural, Clone, Copy, Debug)]
pub enum WaypointType {
    Standard,
    Origin,
    Destination,
    Checkpoint,
    Rally,
    Emergency,
}

/// A waypoint in a convoy route.
#[derive(Clone, Debug)]
pub struct Waypoint {
    pub id: WaypointId,
    pub name: String,
    pub position: GeoPos,
    pub waypoint_type: WaypointType,
    pub expected_arrival_ms: Option<i64>,
    pub actual_arrival_ms: Option<i64>,
    pub loiter_time_seconds: Option<u32>,
}

impl Waypoint {
    pub fn new(id: &str, name: &str, lat_udeg: i64, lng_udeg: i64) -> (r: Waypoint)
        ensures
            r.id.0@ == id@,
            r.name@ == name@,
            r.position == (GeoPos { lat_udeg, lng_udeg, alt_mm: 0 }),
            r.waypoint_type == WaypointType::Standard,
            r.expected_arrival_ms is None,
            r.actual_arrival_ms is None,
            r.loiter_time_seconds is None,
    {
        Waypoint {
            id: WaypointId::new(id),
            name: name.to_owned(),
            position: GeoPos { lat_udeg, lng_udeg, alt_mm: 0 },
            waypoint_type: WaypointType::Standard,
            expected_arrival_ms: None,
            actual_arrival_ms: None,
            loiter_time_seconds: None,
        }
    }
}

/// Lifecycle status of a mission.
#[derive(PartialEq, Eq, Structural, Clone, Copy, Debug)]
pub enum MissionStatus {
    Planning,
    Active,
    Paused,
    Completed,
    Aborted,
}

impl Default for MissionStatus {
    fn default() -> (r: MissionStatus)
        ensures
            r == MissionStatus::Planning,
    {
        MissionStatus::Planning
    }
}

/// Sum of the leg distances along a route, in metres.
pub open spec fn spec_route_distance_upto(ws: Seq<Waypoint>, n: int) -> int
    decreases n,
{
    if n <= 0 {
        0
    } else {
        spec_route_distance_upto(ws, n - 1) + crate::geo::spec_distance_m(
            ws[n - 1].position,
            ws[n].position,
        )
    }
}

/// Total route distance: zero for fewer than two waypoints.
pub open spec fn spec_route_distance(ws: Seq<Waypoint>) -> int {
    if ws.len() < 2 {
        0
    } else {
        spec_route_distance_upto(ws, ws.len() - 1)
    }
}

/// A convoy mission: an ordered route and a set of assigned drones.
#[derive(Clone, Debug)]
pub struct Mission {
    pub id: MissionId,
    pub name: String,
    pub description: Option<String>,
    pub status: MissionStatus,
    pub waypoints: Vec<Waypoint>,
    pub assigned_drones: Vec<DroneId>,
    pub start_time_ms: Option<i64>,
    pub end_time_ms: Option<i64>,
    pub created_at_ms: i64,
    pub updated_at_ms: i64,
}

impl Mission {
    /// The assigned drones form a set: no identifier appears twice.
    pub open spec fn assigned_unique(self) -> bool {
        forall|i: int, j: int|
            0 <= i < j < self.assigned_drones@.len() ==> self.assigned_drones@[i].0@
                != self.assigned_drones@[j].0@
    }

    pub fn new(name: &str) -> (r: Mission)
        ensures
            r.name@ == name@,
            r.description is None,
            r.status == MissionStatus::Planning,
            r.waypoints@.len() == 0,
            r.assigned_drones@.len() == 0,
            r.start_time_ms is None,
            r.end_time_ms is None,
            r.assigned_unique(),
    {
        let now: i64 = now_ms();
        Mission {
            id: MissionId::new(),
            name: name.to_owned(),
            description: None,
            status: MissionStatus::Planning,
            waypoints: Vec::new(),
            assigned_drones: Vec::new(),
            start_time_ms: None,
            end_time_ms: None,
            created_at_ms: now,
            updated_at_ms: now,
        }
    }

    /// Appends a waypoint to the route.
    pub fn add_waypoint(&mut self, waypoint: Waypoint)
        ensures
            final(self).waypoints@ == old(self).waypoints@.push(waypoint),
            final(self).assigned_drones == old(self).assigned_drones,
            final(self).status == old(self).status,
            final(self).id == old(self).id,
            final(self).name == old(self).name,
            old(self).assigned_unique() ==> final(self).assigned_unique(),
    {
        self.waypoints.push(waypoint);
        self.updated_at_ms = now_ms();
    }

    /// Assigns a drone unless it is already assigned: a known id leaves
    /// the mission unchanged, an unknown id is appended, so the assigned
    /// list stays free of duplicates.
    pub fn assign_drone(&mut self, drone_id: DroneId)
        ensures
            old(self).assigned_unique() ==> final(self).assigned_unique(),
            final(self).waypoints == old(self).waypoints,
            final(self).status == old(self).status,
            final(self).id == old(self).id,
            (exists|i: int|
                0 <= i < old(self).assigned_drones@.len() && (
                #[trigger] old(self).assigned_drones@[i]).0@ == drone_id.0@) ==> *final(self)
                == *old(self),
            !(exists|i: int|
                0 <= i < old(self).assigned_drones@.len() && (
                #[trigger] old(self).assigned_drones@[i]).0@ == drone_id.0@) ==> final(self).assigned_drones@ == old(self).assigned_drones@.push(drone_id),
            (exists|i: int|
                0 <= i < final(self).assigned_drones@.len() && final(self).assigned_drones@[i].0@
                    == drone_id.0@),
            (forall|i: int|
                0 <= i < old(self).assigned_drones@.len() ==> final(self).assigned_drones@[i]
                    == old(self).assigned_drones@[i]),
            final(self).assigned_drones@.len() <= old(self).assigned_drones@.len() + 1,
    {
        let mut present: bool = false;
        let mut i: usize = 0;
        let n: usize = self.assigned_drones.len();
        while i < n
        invariant
            n == self.assigned_drones@.len(),
            i <= n,
            present == (exists|k: int|
                0 <= k < i && self.assigned_drones@[k].0@ == drone_id.0@),
        decreases n - i,
        {
            if self.assigned_drones[i].0 == drone_id.0 {
                present = true;
            }
            i += 1;
        }
        if !present {
            self.assigned_drones.push(drone_id);
            self.updated_at_ms = now_ms();
            proof {
                let m = self.assigned_drones@.len() - 1;
                assert(self.assigned_drones@[m].0@ == drone_id.0@);
            }
        }
    }

    /// Starts the mission: status becomes `Active` and the start time set.
    pub fn start(&mut self)
        ensures
            final(self).status == MissionStatus::Active,
            final(self).start_time_ms is Some,
            final(self).waypoints == old(self).waypoints,
            final(self).assigned_drones == old(self).assigned_drones,
            final(self).id == old(self).id,
    {
        self.status = MissionStatus::Active;
        let now: i64 = now_ms();
        self.start_time_ms = Some(now);
        self.updated_at_ms = now;
    }

    /// Completes the mission: status becomes `Completed` and the end time set.
    pub fn complete(&mut self)
        ensures
            final(self).status == MissionStatus::Completed,
            final(self).end_time_ms is Some,
            final(self).waypoints == old(self).waypoints,
            final(self).assigned_drones == old(self).assigned_drones,
            final(self).id == old(self).id,
    {
        self.status = MissionStatus::Completed;
        let now: i64 = now_ms();
        self.end_time_ms = Some(now);
        self.updated_at_ms = now;
    }

    /// Total route distance in metres: the sum of the leg distances
    /// between consecutive waypoints.
    pub fn total_distance_m(&self) -> (r: u64)
        requires
            self.waypoints@.len() <= 100_000_000,
            forall|i: int| 0 <= i < self.waypoints@.len() ==> self.waypoints@[i].position.valid(),
        ensures
            r == spec_route_distance(self.waypoints@),
    {
        let n: usize = self.waypoints.len();
        if n < 2 {
            return 0;
        }
        let mut sum: u64 = 0;
        let mut i: usize = 1;
        while i < n
            invariant
                1 <= i <= n,
                n == self.waypoints@.len(),
                2 <= n <= 100_000_000,
                forall|k: int| 0 <= k < n ==> self.waypoints@[k].position.valid(),
                sum == spec_route_distance_upto(self.waypoints@, i - 1),
                sum <= 21_000_000 * (i - 1),
            decreases n - i,
        {
            let d: u64 = self.waypoints[i - 1].position.distance_m(&self.waypoints[i].position);
            sum = sum + d;
            i += 1;
        }
        sum
    }
}

/// Axis-aligned bounding box of a detected object, in pixels.
#[derive(PartialEq, Eq, Structural, Clone, Copy, Debug)]
pub struct BoundingBox {
    pub x: i32,
    pub y: i32,
    pub width: i32,
    pub height: i32,
}

impl BoundingBox {
    pub fn new(x: i32, y: i32, width: i32, height: i32) -> (r: BoundingBox)
        ensures
            r == (BoundingBox { x, y, width, height }),
    {
        BoundingBox { x, y, width, height }
    }

    /// Centre of the box.
    pub fn center(&self) -> (r: (i32, i32))
        requires
            0 <= self.width,
            0 <= self.height,
            self.x + self.width / 2 <= i32::MAX,
            self.y + self.height / 2 <= i32::MAX,
        ensures
            r.0 == self.x + self.width / 2,
            r.1 == self.y + self.height / 2,
    {
        (self.x + self.width / 2, self.y + self.height / 2)
    }

    /// Area of the box.
    pub fn area(&self) -> (r: i32)
        requires
            0 <= self.width,
            0 <= self.height,
            self.width * self.height <= i32::MAX,
        ensures
            r == self.width * self.height,
    {
        self.width * self.height
    }
}

/// RGB colour of a detection halo.
#[derive(PartialEq, Eq, Structural, Clone, Copy, Debug)]
pub struct HaloColor {
    pub r: u8,
    pub g: u8,
    pub b: u8,
}

impl HaloColor {
    pub fn new(r: u8, g: u8, b: u8) -> (c: HaloColor)
        ensures
            c == (HaloColor { r, g, b }),
    {
        HaloColor { r, g, b }
    }

    pub fn red() -> (c: HaloColor)
        ensures
            c == (HaloColor { r: 255, g: 0, b: 0 }),
    {
        HaloColor { r: 255, g: 0, b: 0 }
    }

    pub fn green() -> (c: HaloColor)
        ensures
            c == (HaloColor { r: 0, g: 255, b: 0 }),
    {
        HaloColor { r: 0, g: 255, b: 0 }
    }

    pub fn blue() -> (c: HaloColor)
        ensures
            c == (HaloColor { r: 0, g: 0, b: 255 }),
    {
        HaloColor { r: 0, g: 0, b: 255 }
    }

    pub fn cyan() -> (c: HaloColor)
        ensures
            c == (HaloColor { r: 0, g: 255, b: 255 }),
    {
        HaloColor { r: 0, g: 255, b: 255 }
    }

    /// Channels in blue-green-red order.
    pub fn to_bgr(&self) -> (r: (u8, u8, u8))
        ensures
            r == (self.b, self.g, self.r),
    {
        (self.b, self.g, self.r)
    }
}

impl Default for HaloColor {
    fn default() -> (c: HaloColor)
        ensures
            c == (HaloColor { r: 255, g: 0, b: 0 }),
    {
        HaloColor::red()
    }
}

/// A circular halo detected in a camera frame.
#[derive(Clone, Copy, Debug)]
pub struct DetectedHalo {
    pub center_x: i32,
    pub center_y: i32,
    pub radius: i32,
    pub color: HaloColor,
    /// Detection confidence in parts per million.
    pub confidence_ppm: u32,
}

impl DetectedHalo {
    pub fn new(center_x: i32, center_y: i32, radius: i32) -> (r: DetectedHalo)
        ensures
            r.center_x == center_x,
            r.center_y == center_y,
            r.radius == radius,
            r.color == (HaloColor { r: 255, g: 0, b: 0 }),
            r.confidence_ppm == 1_000_000,
    {
        DetectedHalo {
            center_x,
            center_y,
            radius,
            color: HaloColor::red(),
            confidence_ppm: 1_000_000,
        }
    }
}

/// A per-frame visual tracking result for one drone.
#[derive(Clone, Debug)]
pub struct TrackingResult {
    pub drone_id: DroneId,
    pub tracking_id: u32,
    pub bbox: BoundingBox,
    pub halo: Option<DetectedHalo>,
    pub estimated_position: Option<GeoPos>,
    pub confidence_ppm: u32,
    pub frame_timestamp_ms: i64,
}

impl TrackingResult {
    pub fn new(drone_id: DroneId, tracking_id: u32, bbox: BoundingBox) -> (r: TrackingResult)
        ensures
            r.drone_id == drone_id,
            r.tracking_id == tracking_id,
            r.bbox == bbox,
            r.halo is None,
            r.estimated_position is None,
            r.confidence_ppm == 1_000_000,
    {
        TrackingResult {
            drone_id,
            tracking_id,
            bbox,
            halo: None,
            estimated_position: None,
            confidence_ppm: 1_000_000,
            frame_timestamp_ms: now_ms(),
        }
    }

    pub fn with_halo(self, halo: DetectedHalo) -> (r: TrackingResult)
        ensures
            r == (TrackingResult { halo: Some(halo), ..self }),
    {
        TrackingResult { halo: Some(halo), ..self }
    }

    pub fn with_position(self, position: GeoPos) -> (r: TrackingResult)
        ensures
            r == (TrackingResult { estimated_position: Some(position), ..self }),
    {
        TrackingResult { estimated_position: Some(position), ..self }
    }
}

/// Severity of a raised alert.
#[derive(PartialEq, Eq, Structural, Clone, Copy, Debug)]
pub enum AlertSeverity {
    Info,
    Warning,
    Critical,
    Emergency,
}

/// Classification of a raised alert.
#[derive(PartialEq, Eq, Debug)]
pub enum AlertType {
    BatteryLow,
    FuelLow,
    SignalLost,
    SystemFailure,
    WaypointDeviation,
    GeofenceBreach,
    CollisionWarning,
    WeatherAlert,
    Custom(String),
}

impl Clone for AlertType {
    fn clone(&self) -> (r: AlertType)
        ensures
            (self is BatteryLow ==> r is BatteryLow),
            (self is FuelLow ==> r is FuelLow),
            (self is SignalLost ==> r is SignalLost),
            (self is SystemFailure ==> r is SystemFailure),
            (self is WaypointDeviation ==> r is WaypointDeviation),
            (self is GeofenceBreach ==> r is GeofenceBreach),
            (self is CollisionWarning ==> r is CollisionWarning),
            (self is WeatherAlert ==> r is WeatherAlert),
            (self matches AlertType::Custom(s) ==> (r matches AlertType::Custom(t) && t@ == s@)),
    {
        match self {
            AlertType::BatteryLow => AlertType::BatteryLow,
            AlertType::FuelLow => AlertType::FuelLow,
            AlertType::SignalLost => AlertType::SignalLost,
            AlertType::SystemFailure => AlertType::SystemFailure,
            AlertType::WaypointDeviation => AlertType::WaypointDeviation,
            AlertType::GeofenceBreach => AlertType::GeofenceBreach,
            AlertType::CollisionWarning => AlertType::CollisionWarning,
            AlertType::WeatherAlert => AlertType::WeatherAlert,
            AlertType::Custom(s) => AlertType::Custom(s.clone()),
        }
    }
}

/// The text of a battery alert: the prefix, the percentage, a percent sign.
pub open spec fn spec_level_message(prefix: Seq<char>, level: int) -> Seq<char> {
    prefix + dec_seq(level as nat) + seq!['%']
}

/// Renders `prefix` followed by the level and a percent sign.
pub fn level_message(prefix: &str, level: u8) -> (r: String)
    ensures
        r@ == spec_level_message(prefix@, level as int),
{
    let mut s: String = prefix.to_owned();
    s.append(fmt_u64(level as u64).as_str());
    proof {
        reveal_strlit("%");
    }
    s.append("%");
    proof {
        assert(s@ =~= spec_level_message(prefix@, level as int));
    }
    s
}

/// A system alert.
#[derive(Debug)]
pub struct Alert {
    pub id: u128,
    pub severity: AlertSeverity,
    pub alert_type: AlertType,
    pub message: String,
    pub drone_id: Option<DroneId>,
    pub mission_id: Option<MissionId>,
    pub created_at_ms: i64,
    pub acknowledged: bool,
    pub resolved: bool,
}

impl Clone for Alert {
    fn clone(&self) -> (r: Alert)
        ensures
            r.id == self.id,
            r.severity == self.severity,
            r.message@ == self.message@,
            r.created_at_ms == self.created_at_ms,
            r.acknowledged == self.acknowledged,
            r.resolved == self.resolved,
            (self.alert_type is BatteryLow ==> r.alert_type is BatteryLow),
            (self.alert_type is FuelLow ==> r.alert_type is FuelLow),
    {
        Alert {
            id: self.id,
            severity: self.severity,
            alert_type: self.alert_type.clone(),
            message: self.message.clone(),
            drone_id: match &self.drone_id {
                Some(d) => Some(d.clone()),
                None => None,
            },
            mission_id: self.mission_id,
            created_at_ms: self.created_at_ms,
            acknowledged: self.acknowledged,
            resolved: self.resolved,
        }
    }
}

impl Alert {
    pub fn new(severity: AlertSeverity, alert_type: AlertType, message: String) -> (r: Alert)
        ensures
            r.severity == severity,
            r.alert_type == alert_type,
            r.message == message,
            r.drone_id is None,
            r.mission_id is None,
            !r.acknowledged,
            !r.resolved,
    {
        Alert {
            id: fresh_uuid(),
            severity,
            alert_type,
            message,
            drone_id: None,
            mission_id: None,
            created_at_ms: now_ms(),
            acknowledged: false,
            resolved: false,
        }
    }

    pub fn for_drone(self, drone_id: DroneId) -> (r: Alert)
        ensures
            r == (Alert { drone_id: Some(drone_id), ..self }),
    {
        Alert { drone_id: Some(drone_id), ..self }
    }

    pub fn for_mission(self, mission_id: MissionId) -> (r: Alert)
        ensures
            r == (Alert { mission_id: Some(mission_id), ..self }),
    {
        Alert { mission_id: Some(mission_id), ..self }
    }
}

} // verus!
