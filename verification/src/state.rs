//! Tracker state snapshots and the update-statistics engine.

use vstd::prelude::*;
use crate::domain::{Drone, DroneId, Mission, TrackingResult};
use crate::events::Event;

verus! {

/// Statistics of the tracking engine.
#[derive(Clone, Copy, Debug)]
pub struct EngineStats {
    pub updates_processed: u64,
    pub events_emitted: u64,
    pub waypoints_detected: u64,
    pub alerts_generated: u64,
    pub uptime_seconds: u64,
}

impl Default for EngineStats {
    fn default() -> (r: EngineStats)
        ensures
            r.updates_processed == 0,
            r.events_emitted == 0,
            r.waypoints_detected == 0,
            r.alerts_generated == 0,
            r.uptime_seconds == 0,
    {
        EngineStats {
            updates_processed: 0,
            events_emitted: 0,
            waypoints_detected: 0,
            alerts_generated: 0,
            uptime_seconds: 0,
        }
    }
}

/// The number of entries whose time is older than the timeout.
pub open spec fn count_stale_entries(s: Seq<(DroneId, i64)>, timeout_ms: int, now_ms: int) -> int
    decreases s.len(),
{
    if s.len() == 0 {
        0
    } else {
        count_stale_entries(s.drop_last(), timeout_ms, now_ms) + (if now_ms - s.last().1
            > timeout_ms {
            1int
        } else {
            0int
        })
    }
}

/// Bookkeeping side of the tracking engine: per-drone last update times
/// and counters over processed updates.
pub struct TrackingEngine {
    last_updates: Vec<(DroneId, i64)>,
    stats: EngineStats,
}

impl TrackingEngine {
    pub closed spec fn spec_stats(self) -> EngineStats {
        self.stats
    }

    pub closed spec fn spec_last_updates(self) -> Seq<(DroneId, i64)> {
        self.last_updates@
    }

    pub fn new() -> (r: TrackingEngine)
        ensures
            r.spec_stats().updates_processed == 0,
            r.spec_last_updates().len() == 0,
    {
        TrackingEngine { last_updates: Vec::new(), stats: EngineStats::default() }
    }

    /// Records one processed update: the drone's last update time is set
    /// and the update counter advances.
    pub fn process_update(&mut self, drone_id: &DroneId, at_ms: i64)
        ensures
            final(self).spec_stats().updates_processed == (if old(
                self,
            ).spec_stats().updates_processed < u64::MAX {
                old(self).spec_stats().updates_processed + 1
            } else {
                old(self).spec_stats().updates_processed as int
            }),
            exists|i: int|
                0 <= i < final(self).spec_last_updates().len() && (#[trigger] final(self).spec_last_updates()[i]).0.0@
                    == drone_id.0@ && final(self).spec_last_updates()[i].1 == at_ms,
    {
        self.stats.updates_processed = if self.stats.updates_processed < u64::MAX {
            self.stats.updates_processed + 1
        } else {
            self.stats.updates_processed
        };
        let n: usize = self.last_updates.len();
        let mut i: usize = 0;
        let mut at: Option<usize> = None;
        while i < n
            invariant
                i <= n,
                n == self.last_updates@.len(),
                at matches Some(k) ==> (k as int) < n,
            decreases n - i,
        {
            if at.is_none() && self.last_updates[i].0.0 == drone_id.0 {
                at = Some(i);
            }
            i += 1;
        }
        match at {
            Some(k) => {
                let slot = &mut self.last_updates[k];
                *slot = (DroneId::from_string(drone_id.0.clone()), at_ms);
                proof {
                    assert(self.spec_last_updates()[k as int].0.0@ == drone_id.0@);
                    assert(exists|q: int|
                        0 <= q < self.spec_last_updates().len() && (
                        #[trigger] self.spec_last_updates()[q]).0.0@ == drone_id.0@
                            && self.spec_last_updates()[q].1 == at_ms);
                }
            },
            None => {
                self.last_updates.push((DroneId::from_string(drone_id.0.clone()), at_ms));
                proof {
                    let m = self.last_updates@.len() - 1;
                    assert(self.spec_last_updates()[m].0.0@ == drone_id.0@);
                    assert(exists|q: int|
                        0 <= q < self.spec_last_updates().len() && (
                        #[trigger] self.spec_last_updates()[q]).0.0@ == drone_id.0@
                            && self.spec_last_updates()[q].1 == at_ms);
                }
            },
        }
    }

    /// Counts one emitted event.
    pub fn record_event(&mut self, _event: &Event)
        ensures
            final(self).spec_stats().events_emitted >= old(self).spec_stats().events_emitted,
    {
        self.stats.events_emitted = if self.stats.events_emitted < u64::MAX {
            self.stats.events_emitted + 1
        } else {
            self.stats.events_emitted
        };
    }

    /// Counts one detected waypoint arrival.
    pub fn record_waypoint(&mut self)
        ensures
            final(self).spec_stats().waypoints_detected >= old(self).spec_stats().waypoints_detected,
    {
        self.stats.waypoints_detected = if self.stats.waypoints_detected < u64::MAX {
            self.stats.waypoints_detected + 1
        } else {
            self.stats.waypoints_detected
        };
    }

    /// Counts one generated alert.
    pub fn record_alert(&mut self)
        ensures
            final(self).spec_stats().alerts_generated >= old(self).spec_stats().alerts_generated,
    {
        self.stats.alerts_generated = if self.stats.alerts_generated < u64::MAX {
            self.stats.alerts_generated + 1
        } else {
            self.stats.alerts_generated
        };
    }

    /// Ids whose last update is older than the timeout.
    pub fn check_stale_drones(&self, timeout_ms: i64, now_ms: i64) -> (r: Vec<DroneId>)
        ensures
            r@.len() == count_stale_entries(
                self.spec_last_updates(),
                timeout_ms as int,
                now_ms as int,
            ),
    {
        let n: usize = self.last_updates.len();
        let mut out: Vec<DroneId> = Vec::new();
        let mut i: usize = 0;
        while i < n
            invariant
                i <= n,
                n == self.last_updates@.len(),
                out@.len() == count_stale_entries(
                    self.spec_last_updates().take(i as int),
                    timeout_ms as int,
                    now_ms as int,
                ),
            decreases n - i,
        {
            let since: i128 = (now_ms as i128) - (self.last_updates[i].1 as i128);
            if since > timeout_ms as i128 {
                out.push(DroneId::from_string(self.last_updates[i].0.0.clone()));
            }
            proof {
                assert(self.spec_last_updates().take(i + 1 as int).drop_last()
                    =~= self.spec_last_updates().take(i as int));
                assert(self.spec_last_updates().take(i + 1 as int).last()
                    == self.spec_last_updates()[i as int]);
            }
            i += 1;
        }
        proof {
            assert(self.spec_last_updates().take(n as int) =~= self.spec_last_updates());
        }
        out
    }

    /// The current statistics.
    pub fn get_stats(&self) -> (r: EngineStats)
        ensures
            r == self.spec_stats(),
    {
        self.stats
    }
}

impl Default for TrackingEngine {
    fn default() -> (r: TrackingEngine)
        ensures
            r.spec_stats().updates_processed == 0,
    {
        TrackingEngine::new()
    }
}

/// Scalar snapshot of one drone.
#[derive(Clone, Debug)]
pub struct DroneSnapshot {
    pub id: String,
    pub callsign: String,
    pub status: String,
    pub lat_udeg: i64,
    pub lng_udeg: i64,
    pub alt_mm: i64,
    pub heading_cdeg: u32,
    pub speed_ckmh: u32,
    pub battery: u8,
    pub fuel: u8,
    pub health: u8,
    pub armed: bool,
    pub current_waypoint: usize,
}

/// Builds the scalar snapshot of a drone.
pub fn drone_snapshot(drone: &Drone) -> (r: DroneSnapshot)
    ensures
        r.id@ == drone.id.0@,
        r.callsign@ == drone.callsign@,
        r.lat_udeg == drone.position.lat_udeg,
        r.lng_udeg == drone.position.lng_udeg,
        r.alt_mm == drone.position.alt_mm,
        r.heading_cdeg == drone.telemetry.heading_cdeg,
        r.speed_ckmh == drone.telemetry.speed_ckmh,
        r.battery == drone.telemetry.battery_level,
        r.fuel == drone.telemetry.fuel_level,
        r.health == drone.telemetry.system_health,
        r.armed == drone.armed,
        r.current_waypoint == drone.current_waypoint_index,
{
    DroneSnapshot {
        id: drone.id.0.clone(),
        callsign: drone.callsign.clone(),
        status: drone.status.label().to_owned(),
        lat_udeg: drone.position.lat_udeg,
        lng_udeg: drone.position.lng_udeg,
        alt_mm: drone.position.alt_mm,
        heading_cdeg: drone.telemetry.heading_cdeg,
        speed_ckmh: drone.telemetry.speed_ckmh,
        battery: drone.telemetry.battery_level,
        fuel: drone.telemetry.fuel_level,
        health: drone.telemetry.system_health,
        armed: drone.armed,
        current_waypoint: drone.current_waypoint_index,
    }
}

/// Scalar snapshot of a mission.
#[derive(Clone, Debug)]
pub struct MissionSnapshot {
    pub id: u128,
    pub name: String,
    pub status: String,
    pub waypoint_count: usize,
    pub drone_count: usize,
    pub distance_m: u64,
}

/// Scalar snapshot of one visual-tracking result.
#[derive(Clone, Debug)]
pub struct TrackingSnapshot {
    pub drone_id: String,
    pub tracking_id: u32,
    pub bbox_x: i32,
    pub bbox_y: i32,
    pub bbox_width: i32,
    pub bbox_height: i32,
    pub confidence_ppm: u32,
    pub halo_detected: bool,
    pub estimated_lat_udeg: Option<i64>,
    pub estimated_lng_udeg: Option<i64>,
}

/// Builds the scalar snapshot of a tracking result.
pub fn tracking_snapshot(result: &TrackingResult) -> (r: TrackingSnapshot)
    ensures
        r.drone_id@ == result.drone_id.0@,
        r.tracking_id == result.tracking_id,
        r.bbox_x == result.bbox.x,
        r.bbox_y == result.bbox.y,
        r.confidence_ppm == result.confidence_ppm,
        r.halo_detected == (result.halo is Some),
        r.estimated_lat_udeg is Some <==> result.estimated_position is Some,
{
    let (elat, elng): (Option<i64>, Option<i64>) = match &result.estimated_position {
        Some(p) => (Some(p.lat_udeg), Some(p.lng_udeg)),
        None => (None, None),
    };
    TrackingSnapshot {
        drone_id: result.drone_id.0.clone(),
        tracking_id: result.tracking_id,
        bbox_x: result.bbox.x,
        bbox_y: result.bbox.y,
        bbox_width: result.bbox.width,
        bbox_height: result.bbox.height,
        confidence_ppm: result.confidence_ppm,
        halo_detected: match &result.halo {
            Some(_) => true,
            None => false,
        },
        estimated_lat_udeg: elat,
        estimated_lng_udeg: elng,
    }
}

/// Aggregate statistics of a state snapshot.
#[derive(Clone, Copy, Debug)]
pub struct TrackerStats {
    pub drone_count: usize,
    pub active_count: usize,
    pub tracking_count: usize,
    pub mission_active: bool,
}

impl Default for TrackerStats {
    fn default() -> (r: TrackerStats)
        ensures
            r.drone_count == 0,
            r.active_count == 0,
            r.tracking_count == 0,
            !r.mission_active,
    {
        TrackerStats { drone_count: 0, active_count: 0, tracking_count: 0, mission_active: false }
    }
}

/// The number of operational drones in a sequence.
pub open spec fn count_operational(s: Seq<Drone>) -> int
    decreases s.len(),
{
    if s.len() == 0 {
        0
    } else {
        count_operational(s.drop_last()) + (if s.last().status
            != crate::domain::DroneStatus::Offline && s.last().status
            != crate::domain::DroneStatus::Maintenance {
            1int
        } else {
            0int
        })
    }
}

/// Complete state snapshot.
#[derive(Debug)]
pub struct TrackerState {
    pub drones: Vec<DroneSnapshot>,
    pub mission: Option<MissionSnapshot>,
    pub tracking: Vec<TrackingSnapshot>,
    pub timestamp_ms: i64,
    pub stats: TrackerStats,
}

impl TrackerState {
    /// The empty snapshot.
    pub fn empty(at_ms: i64) -> (r: TrackerState)
        ensures
            r.drones@.len() == 0,
            r.mission is None,
            r.tracking@.len() == 0,
            r.stats.drone_count == 0,
    {
        TrackerState {
            drones: Vec::new(),
            mission: None,
            tracking: Vec::new(),
            timestamp_ms: at_ms,
            stats: TrackerStats::default(),
        }
    }

    /// Builds the snapshot of the given drones, mission and tracking
    /// results: one snapshot per record, with the aggregate counts.
    pub fn from_data(
        drones: &Vec<Drone>,
        mission: &Option<Mission>,
        tracking: &Vec<TrackingResult>,
        at_ms: i64,
    ) -> (r: TrackerState)
        requires
            mission matches Some(m) ==> (m.waypoints@.len() <= 100_000_000 && (forall|i: int|
                0 <= i < m.waypoints@.len() ==> (#[trigger] m.waypoints@[i]).position.valid())),
        ensures
            r.drones@.len() == drones@.len(),
            r.tracking@.len() == tracking@.len(),
            r.stats.drone_count == drones@.len(),
            r.stats.tracking_count == tracking@.len(),
            r.stats.mission_active == (mission is Some),
            r.stats.active_count == count_operational(drones@),
            forall|i: int| 0 <= i < r.drones@.len() ==> (#[trigger] r.drones@[i]).id@ == drones@[i].id.0@,
    {
        let nd: usize = drones.len();
        let mut snaps: Vec<DroneSnapshot> = Vec::new();
        let mut active: usize = 0;
        let mut i: usize = 0;
        while i < nd
            invariant
                i <= nd,
                nd == drones@.len(),
                snaps@.len() == i,
                active as int == count_operational(drones@.take(i as int)),
                active <= i,
                forall|k: int|
                    0 <= k < i ==> (#[trigger] snaps@[k]).id@ == drones@[k].id.0@,
            decreases nd - i,
        {
            snaps.push(drone_snapshot(&drones[i]));
            if drones[i].is_operational() {
                active += 1;
            }
            proof {
                assert(drones@.take(i + 1 as int).drop_last() =~= drones@.take(i as int));
                assert(drones@.take(i + 1 as int).last() == drones@[i as int]);
            }
            i += 1;
        }
        proof {
            assert(drones@.take(nd as int) =~= drones@);
        }
        let nt: usize = tracking.len();
        let mut tsnaps: Vec<TrackingSnapshot> = Vec::new();
        let mut i: usize = 0;
        while i < nt
            invariant
                i <= nt,
                nt == tracking@.len(),
                tsnaps@.len() == i,
            decreases nt - i,
        {
            tsnaps.push(tracking_snapshot(&tracking[i]));
            i += 1;
        }
        let msnap: Option<MissionSnapshot> = match mission {
            Some(m) => Some(
                MissionSnapshot {
                    id: m.id.0,
                    name: m.name.clone(),
                    status: mission_status_label(m.status).to_owned(),
                    waypoint_count: m.waypoints.len(),
                    drone_count: m.assigned_drones.len(),
                    distance_m: m.total_distance_m(),
                },
            ),
            None => None,
        };
        TrackerState {
            drones: snaps,
            mission: msnap,
            tracking: tsnaps,
            timestamp_ms: at_ms,
            stats: TrackerStats {
                drone_count: nd,
                active_count: active,
                tracking_count: nt,
                mission_active: match mission {
                    Some(_) => true,
                    None => false,
                },
            },
        }
    }
}

/// The wire label of a mission status.
pub fn mission_status_label(s: crate::domain::MissionStatus) -> (r: &'static str)
    ensures
        s == crate::domain::MissionStatus::Planning ==> r@ == "PLANNING"@,
        s == crate::domain::MissionStatus::Active ==> r@ == "ACTIVE"@,
        s == crate::domain::MissionStatus::Paused ==> r@ == "PAUSED"@,
        s == crate::domain::MissionStatus::Completed ==> r@ == "COMPLETED"@,
        s == crate::domain::MissionStatus::Aborted ==> r@ == "ABORTED"@,
{
    match s {
        crate::domain::MissionStatus::Planning => "PLANNING",
        crate::domain::MissionStatus::Active => "ACTIVE",
        crate::domain::MissionStatus::Paused => "PAUSED",
        crate::domain::MissionStatus::Completed => "COMPLETED",
        crate::domain::MissionStatus::Aborted => "ABORTED",
    }
}

} // verus!
