//! The tracking coordinator: per-drone tracked state, the hot update path,
//! waypoint arrival detection against the active mission, and the alert
//! rules.
//!
//! Every position update appends to a bounded history of at most 100
//! samples; the waypoint index of a tracked drone never decreases; all
//! events emitted by one update carry the update's timestamp; and the
//! battery and fuel alerts are raised exactly when their thresholds are
//! crossed.

use vstd::prelude::*;
use crate::domain::{
    level_message, spec_level_message, Alert, AlertSeverity, AlertType, Drone, DroneId,
    Telemetry, Mission, MissionStatus,
};
use crate::events::{Event, EventPayload, EventType};
use crate::geo::{spec_distance_m, GeoPos};

verus! {

/// The history after one sample: the sample appended, the oldest entry
/// evicted once the bound of 100 is exceeded.
pub open spec fn hist_push(h: Seq<(i64, GeoPos)>, at_ms: i64, p: GeoPos) -> Seq<(i64, GeoPos)> {
    if h.len() < 100 {
        h.push((at_ms, p))
    } else {
        h.push((at_ms, p)).remove(0)
    }
}

/// Tracking system configuration, with all thresholds explicit.
#[derive(Clone, Copy, Debug)]
pub struct TrackerConfig {
    /// Update interval for position tracking, milliseconds.
    pub update_interval_ms: u64,
    /// Waypoint arrival threshold, metres.
    pub waypoint_threshold_m: u64,
    /// Enable mesh networking.
    pub p2p_enabled: bool,
    /// Enable persistence.
    pub db_enabled: bool,
    pub battery_warning_threshold: u8,
    pub battery_critical_threshold: u8,
    pub fuel_warning_threshold: u8,
    pub fuel_critical_threshold: u8,
}

impl Default for TrackerConfig {
    fn default() -> (r: TrackerConfig)
        ensures
            r.update_interval_ms == 100,
            r.waypoint_threshold_m == 100,
            !r.p2p_enabled,
            r.db_enabled,
            r.battery_warning_threshold == 30,
            r.battery_critical_threshold == 15,
            r.fuel_warning_threshold == 25,
            r.fuel_critical_threshold == 10,
    {
        TrackerConfig {
            update_interval_ms: 100,
            waypoint_threshold_m: 100,
            p2p_enabled: false,
            db_enabled: true,
            battery_warning_threshold: 30,
            battery_critical_threshold: 15,
            fuel_warning_threshold: 25,
            fuel_critical_threshold: 10,
        }
    }
}

/// Tracked state of one drone: the drone record, waypoint progress and a
/// bounded position history.
#[derive(Debug)]
pub struct TrackedDrone {
    pub drone: Drone,
    pub waypoint_index: usize,
    /// Progress toward the next waypoint, permille.
    pub waypoint_progress_permille: u32,
    pub last_update_ms: i64,
    /// The most recent position samples, oldest first, at most 100.
    pub position_history: Vec<(i64, GeoPos)>,
    pub active_alerts: Vec<Alert>,
}

impl TrackedDrone {
    /// The history never exceeds 100 samples.
    pub open spec fn wf(self) -> bool {
        self.position_history@.len() <= 100
    }

    pub fn new(drone: Drone) -> (r: TrackedDrone)
        ensures
            r.wf(),
            r.drone == drone,
            r.waypoint_index == 0,
            r.waypoint_progress_permille == 0,
            r.position_history@.len() == 0,
            r.active_alerts@.len() == 0,
    {
        let last = drone.last_update_ms;
        TrackedDrone {
            drone,
            waypoint_index: 0,
            waypoint_progress_permille: 0,
            last_update_ms: last,
            position_history: Vec::new(),
            active_alerts: Vec::new(),
        }
    }

    /// Replaces position and telemetry, stamps the time and appends to
    /// the history, evicting the oldest sample beyond 100.
    pub fn update_position(&mut self, position: GeoPos, telemetry: Telemetry, at_ms: i64)
        requires
            old(self).wf(),
        ensures
            final(self).wf(),
            final(self).drone.position == position,
            final(self).drone.telemetry == telemetry,
            final(self).drone.last_update_ms == at_ms,
            final(self).last_update_ms == at_ms,
            final(self).position_history@ == hist_push(
                old(self).position_history@,
                at_ms,
                position,
            ),
            final(self).position_history@.len() == (if old(self).position_history@.len() < 100 {
                old(self).position_history@.len() as int + 1
            } else {
                100int
            }),
            final(self).position_history@.last() == (at_ms, position),
            final(self).drone.id == old(self).drone.id,
            final(self).drone.callsign == old(self).drone.callsign,
            final(self).drone.status == old(self).drone.status,
            final(self).drone.mission_id == old(self).drone.mission_id,
            final(self).drone.armed == old(self).drone.armed,
            final(self).waypoint_index == old(self).waypoint_index,
            final(self).waypoint_progress_permille == old(self).waypoint_progress_permille,
            final(self).active_alerts == old(self).active_alerts,
    {
        self.drone.position = position;
        self.drone.telemetry = telemetry;
        self.drone.last_update_ms = at_ms;
        self.last_update_ms = at_ms;
        self.position_history.push((at_ms, position));
        if self.position_history.len() > 100 {
            let _ = self.position_history.remove(0);
        }
    }

    /// Whether the drone has not reported within the timeout.
    pub fn is_stale(&self, timeout_ms: i64, now_ms: i64) -> (r: bool)
        ensures
            r == (now_ms - self.last_update_ms > timeout_ms),
    {
        let since: i128 = (now_ms as i128) - (self.last_update_ms as i128);
        since > timeout_ms as i128
    }
}

/// The index of the first tracked drone with the given id.
pub open spec fn find_drone(s: Seq<TrackedDrone>, id: Seq<char>, k: int) -> Option<int>
    decreases s.len() - k,
{
    if k < 0 || k >= s.len() {
        None
    } else if s[k].drone.id.0@ == id {
        Some(k)
    } else {
        find_drone(s, id, k + 1)
    }
}

/// When no entry is found, no entry carries the id.
pub proof fn lemma_find_drone_none(s: Seq<TrackedDrone>, id: Seq<char>, k: int)
    requires
        0 <= k <= s.len(),
        find_drone(s, id, k) is None,
    ensures
        forall|q: int| k <= q < s.len() ==> (#[trigger] s[q]).drone.id.0@ != id,
    decreases s.len() - k,
{
    if k < s.len() {
        lemma_find_drone_none(s, id, k + 1);
    }
}

/// The number of drones whose last update is older than the timeout.
pub open spec fn count_stale(s: Seq<TrackedDrone>, timeout_ms: int, now_ms: int) -> int
    decreases s.len(),
{
    if s.len() == 0 {
        0
    } else {
        count_stale(s.drop_last(), timeout_ms, now_ms) + (if now_ms - s.last().last_update_ms
            > timeout_ms {
            1int
        } else {
            0int
        })
    }
}

/// The ids of the stale drones, in tracker order.
pub open spec fn stale_ids(s: Seq<TrackedDrone>, timeout_ms: int, now_ms: int) -> Seq<Seq<char>>
    decreases s.len(),
{
    if s.len() == 0 {
        Seq::empty()
    } else {
        let rest = stale_ids(s.drop_last(), timeout_ms, now_ms);
        if now_ms - s.last().last_update_ms > timeout_ms {
            rest.push(s.last().drone.id.0@)
        } else {
            rest
        }
    }
}

/// Whether the mission assigns the drone with the given id.
pub open spec fn mission_assigns(m: Mission, id: Seq<char>) -> bool {
    exists|j: int| 0 <= j < m.assigned_drones@.len() && (#[trigger] m.assigned_drones@[j]).0@ == id
}

/// Whether a sample for the given drone arrives at its next waypoint:
/// the mission is active, the drone is tracked with route left, and the
/// sample is within the threshold of the next waypoint.
pub open spec fn spec_arrival(
    m_opt: Option<Mission>,
    drones: Seq<TrackedDrone>,
    id: Seq<char>,
    pos: GeoPos,
    threshold_m: int,
) -> bool {
    m_opt matches Some(m) && (m.status == MissionStatus::Active && (find_drone(drones, id, 0)
        matches Some(k) && ((drones[k].waypoint_index as int) < m.waypoints@.len()
        && spec_distance_m(pos, m.waypoints@[drones[k].waypoint_index as int].position)
        < threshold_m)))
}

/// Two drone records that agree on every field but the airframe type.
pub open spec fn drone_like(a: Drone, b: Drone) -> bool {
    &&& a.id.0@ == b.id.0@
    &&& a.callsign@ == b.callsign@
    &&& a.position == b.position
    &&& a.telemetry == b.telemetry
    &&& a.status == b.status
    &&& a.current_waypoint_index == b.current_waypoint_index
    &&& a.mission_id == b.mission_id
    &&& a.armed == b.armed
    &&& a.last_update_ms == b.last_update_ms
}

/// Two tracked records that agree on the drone, the progress and the
/// history.
pub open spec fn tracked_like(a: TrackedDrone, b: TrackedDrone) -> bool {
    &&& drone_like(a.drone, b.drone)
    &&& a.waypoint_index == b.waypoint_index
    &&& a.waypoint_progress_permille == b.waypoint_progress_permille
    &&& a.last_update_ms == b.last_update_ms
    &&& a.position_history@ == b.position_history@
    &&& a.active_alerts@.len() == b.active_alerts@.len()
}

/// Two waypoints that agree on every field by value.
pub open spec fn waypoint_like(a: crate::domain::Waypoint, b: crate::domain::Waypoint) -> bool {
    &&& a.id.0@ == b.id.0@
    &&& a.name@ == b.name@
    &&& a.position == b.position
    &&& a.waypoint_type == b.waypoint_type
    &&& a.expected_arrival_ms == b.expected_arrival_ms
    &&& a.actual_arrival_ms == b.actual_arrival_ms
    &&& a.loiter_time_seconds == b.loiter_time_seconds
}

/// Two missions that agree on every field by value: the same route, the
/// same assignments, the same status and times.
pub open spec fn mission_like(a: Mission, b: Mission) -> bool {
    &&& a.id == b.id
    &&& a.name@ == b.name@
    &&& (a.description is Some <==> b.description is Some)
    &&& (a.description matches Some(d) ==> b.description matches Some(e) && d@ == e@)
    &&& a.status == b.status
    &&& a.waypoints@.len() == b.waypoints@.len()
    &&& (forall|i: int|
        0 <= i < a.waypoints@.len() ==> waypoint_like(
            #[trigger] a.waypoints@[i],
            b.waypoints@[i],
        ))
    &&& a.assigned_drones@.len() == b.assigned_drones@.len()
    &&& (forall|i: int|
        0 <= i < a.assigned_drones@.len() ==> (#[trigger] a.assigned_drones@[i]).0@
            == b.assigned_drones@[i].0@)
    &&& a.start_time_ms == b.start_time_ms
    &&& a.end_time_ms == b.end_time_ms
    &&& a.created_at_ms == b.created_at_ms
    &&& a.updated_at_ms == b.updated_at_ms
}

/// Progress along a leg in permille: the travelled share of the leg,
/// with the remaining share capped at the whole leg.
pub open spec fn spec_leg_progress(total: int, remaining: int) -> int {
    let f = remaining * 1000 / total;
    let fc = if f > 1000 {
        1000
    } else {
        f
    };
    1000 - fc
}

/// Everything an update emitted: events for the bus and alerts for the
/// alert channel.
pub struct UpdateOutcome {
    pub events: Vec<Event>,
    pub alerts: Vec<Alert>,
}

/// The main tracking coordinator.
pub struct DroneTracker {
    config: TrackerConfig,
    drones: Vec<TrackedDrone>,
    mission: Option<Mission>,
    running: bool,
}

impl DroneTracker {
    pub closed spec fn spec_drones(self) -> Seq<TrackedDrone> {
        self.drones@
    }

    pub closed spec fn spec_mission(self) -> Option<Mission> {
        self.mission
    }

    pub closed spec fn spec_config(self) -> TrackerConfig {
        self.config
    }

    pub closed spec fn spec_running(self) -> bool {
        self.running
    }

    /// Every tracked drone keeps a bounded history; ids are unique; the
    /// set mission's waypoints are valid positions.
    pub closed spec fn wf(self) -> bool {
        &&& (forall|i: int| 0 <= i < self.drones@.len() ==> (#[trigger] self.drones@[i]).wf())
        &&& (forall|i: int, j: int|
            0 <= i < j < self.drones@.len() ==> self.drones@[i].drone.id.0@
                != self.drones@[j].drone.id.0@)
        &&& (self.mission matches Some(m) ==> (forall|i: int|
            0 <= i < m.waypoints@.len() ==> (#[trigger] m.waypoints@[i]).position.valid()))
    }

    /// Every tracked drone's history holds at most 100 samples.
    pub proof fn lemma_history_bounded(self)
        requires
            self.wf(),
        ensures
            forall|i: int|
                0 <= i < self.spec_drones().len() ==> (
                #[trigger] self.spec_drones()[i]).position_history@.len() <= 100,
    {
    }

    pub fn new(config: TrackerConfig) -> (r: DroneTracker)
        ensures
            r.wf(),
            r.spec_drones().len() == 0,
            r.spec_mission() is None,
            !r.spec_running(),
            r.spec_config() == config,
    {
        DroneTracker { config, drones: Vec::new(), mission: None, running: false }
    }

    /// Registers a drone: an unknown id is appended with fresh tracking
    /// state; a known id leaves the tracker unchanged. Registration is
    /// idempotent per id and never duplicates one.
    pub fn register_drone(&mut self, drone: Drone)
        requires
            old(self).wf(),
        ensures
            final(self).wf(),
            find_drone(old(self).spec_drones(), drone.id.0@, 0) is Some ==> *final(self) == *old(self),
            find_drone(old(self).spec_drones(), drone.id.0@, 0) is None ==> {
                &&& final(self).spec_mission() == old(self).spec_mission()
                &&& final(self).spec_config() == old(self).spec_config()
                &&& final(self).spec_running() == old(self).spec_running()
                &&& final(self).spec_drones().len() == old(self).spec_drones().len() + 1
                &&& (forall|k: int|
                    0 <= k < old(self).spec_drones().len() ==> final(self).spec_drones()[k] == old(self).spec_drones()[k])
                &&& final(self).spec_drones().last().drone == drone
                &&& final(self).spec_drones().last().waypoint_index == 0
                &&& final(self).spec_drones().last().waypoint_progress_permille == 0
                &&& final(self).spec_drones().last().position_history@.len() == 0
                &&& final(self).spec_drones().last().active_alerts@.len() == 0
            },
    {
        let n: usize = self.drones.len();
        let mut i: usize = 0;
        while i < n
            invariant
                i <= n,
                n == self.drones@.len(),
                *self == *old(self),
                old(self).wf(),
                find_drone(self.drones@, drone.id.0@, 0) == find_drone(
                    self.drones@,
                    drone.id.0@,
                    i as int,
                ),
            decreases n - i,
        {
            if self.drones[i].drone.id.0 == drone.id.0 {
                proof {
                    assert(find_drone(self.drones@, drone.id.0@, i as int) == Some(i as int));
                }
                return ;
            }
            proof {
                assert(find_drone(self.drones@, drone.id.0@, i as int) == find_drone(
                    self.drones@,
                    drone.id.0@,
                    i + 1,
                ));
            }
            i += 1;
        }
        proof {
            assert(find_drone(self.drones@, drone.id.0@, n as int) is None);
            lemma_find_drone_none(self.drones@, drone.id.0@, 0);
        }
        self.drones.push(TrackedDrone::new(drone));
    }

    /// The hot path: one position and telemetry sample for one drone.
    ///
    /// An unknown drone is dropped: nothing changes and nothing is
    /// emitted. Otherwise the drone's record and history are updated;
    /// with an active mission, arrival at the next waypoint is detected
    /// against the configured threshold and emits a waypoint event and
    /// advances the index; the battery and fuel alert rules run on the
    /// sample; and a position-updated event is emitted last. Every
    /// emitted event is stamped with this update's time.
    #[verifier::rlimit(100)]
    pub fn update_drone_position(
        &mut self,
        drone_id: &DroneId,
        position: &GeoPos,
        telemetry: &Telemetry,
        at_ms: i64,
    ) -> (r: UpdateOutcome)
        requires
            old(self).wf(),
            position.valid(),
        ensures
            final(self).wf(),
            final(self).spec_mission() == old(self).spec_mission(),
            final(self).spec_config() == old(self).spec_config(),
            final(self).spec_drones().len() == old(self).spec_drones().len(),
            // Ids are stable; a waypoint index never decreases, grows by
            // at most one per update, and only while route remains.
            forall|k: int|
                0 <= k < old(self).spec_drones().len() ==> {
                    let o = old(self).spec_drones()[k];
                    let f = #[trigger] final(self).spec_drones()[k];
                    &&& f.drone.id.0@ == o.drone.id.0@
                    &&& f.waypoint_index >= o.waypoint_index
                    &&& f.waypoint_index <= o.waypoint_index + 1
                    &&& (f.waypoint_index > o.waypoint_index ==> (old(self).spec_mission() matches
                        Some(m) && f.waypoint_index <= m.waypoints@.len()))
                },
            // Every emitted event carries this update's timestamp.
            forall|k: int|
                0 <= k < r.events@.len() ==> (#[trigger] r.events@[k]).timestamp_ms == at_ms,
            // An unknown drone changes nothing and emits nothing.
            find_drone(old(self).spec_drones(), drone_id.0@, 0) is None ==> (r.events@.len() == 0
                && r.alerts@.len() == 0 && *final(self) == *old(self)),
            // A known drone has the sample recorded into exactly its own
            // record: position, telemetry, stamp and shifted history.
            find_drone(old(self).spec_drones(), drone_id.0@, 0) matches Some(f) ==> {
                let o = old(self).spec_drones()[f];
                let fd = final(self).spec_drones()[f];
                &&& (forall|k: int|
                    0 <= k < old(self).spec_drones().len() && k != f
                        ==> final(self).spec_drones()[k] == old(self).spec_drones()[k])
                &&& fd.drone.position == *position
                &&& fd.drone.telemetry == *telemetry
                &&& fd.last_update_ms == at_ms
                &&& fd.position_history@ == hist_push(o.position_history@, at_ms, *position)
            },
            // A known drone gets exactly one position-updated event, last,
            // carrying the sample; at most one waypoint event precedes it.
            find_drone(old(self).spec_drones(), drone_id.0@, 0) is Some ==> {
                &&& 1 <= r.events@.len() <= 2
                &&& r.events@.last().event_type == EventType::DronePositionUpdated
                &&& (r.events@.last().payload matches EventPayload::DronePosition(p)
                    && p.drone_id.0@ == drone_id.0@ && p.position == *position && p.telemetry
                    == *telemetry)
                &&& (r.events@.len() == 2 ==> r.events@[0].event_type == EventType::WaypointReached)
            },
            // A waypoint arrival is emitted exactly on threshold crossing
            // against the active mission.
            (exists|k: int|
                0 <= k < r.events@.len() && (#[trigger] r.events@[k]).event_type
                    == EventType::WaypointReached) <==> spec_arrival(
                old(self).spec_mission(),
                old(self).spec_drones(),
                drone_id.0@,
                *position,
                old(self).spec_config().waypoint_threshold_m as int,
            ),
            // On arrival: the waypoint event names the reached waypoint,
            // the index advances by exactly one, the progress resets.
            find_drone(old(self).spec_drones(), drone_id.0@, 0) matches Some(f) ==> (spec_arrival(
                old(self).spec_mission(),
                old(self).spec_drones(),
                drone_id.0@,
                *position,
                old(self).spec_config().waypoint_threshold_m as int,
            ) ==> {
                let o = old(self).spec_drones()[f];
                let m = old(self).spec_mission()->Some_0;
                &&& final(self).spec_drones()[f].waypoint_index == o.waypoint_index + 1
                &&& final(self).spec_drones()[f].waypoint_progress_permille == 0
                &&& r.events@.len() == 2
                &&& (r.events@[0].payload matches EventPayload::Waypoint(wp) && wp.drone_id.0@
                    == drone_id.0@ && wp.waypoint_id.0@ == m.waypoints@[o.waypoint_index as int].id.0@
                    && wp.position == *position)
            }),
            // Otherwise the index stands still and the progress follows
            // the leg formula where one is measurable, else stays.
            find_drone(old(self).spec_drones(), drone_id.0@, 0) matches Some(f) ==> (!spec_arrival(
                old(self).spec_mission(),
                old(self).spec_drones(),
                drone_id.0@,
                *position,
                old(self).spec_config().waypoint_threshold_m as int,
            ) ==> {
                let o = old(self).spec_drones()[f];
                &&& final(self).spec_drones()[f].waypoint_index == o.waypoint_index
                &&& r.events@.len() == 1
                &&& (if old(self).spec_mission() matches Some(m) && m.status
                    == MissionStatus::Active && 0 < o.waypoint_index && (o.waypoint_index as int)
                    < m.waypoints@.len() && spec_distance_m(
                    m.waypoints@[o.waypoint_index - 1].position,
                    m.waypoints@[o.waypoint_index as int].position,
                ) > 0 {
                    final(self).spec_drones()[f].waypoint_progress_permille == spec_leg_progress(
                        spec_distance_m(
                            old(self).spec_mission()->Some_0.waypoints@[o.waypoint_index
                                - 1].position,
                            old(self).spec_mission()->Some_0.waypoints@[o.waypoint_index as int].position,
                        ),
                        spec_distance_m(
                            *position,
                            old(self).spec_mission()->Some_0.waypoints@[o.waypoint_index as int].position,
                        ),
                    )
                } else {
                    final(self).spec_drones()[f].waypoint_progress_permille
                        == o.waypoint_progress_permille
                })
            }),
            // The alert rules, exactly (battery, then fuel, nothing else).
            find_drone(old(self).spec_drones(), drone_id.0@, 0) is Some ==> alerts_pinned(
                r.alerts@,
                old(self).spec_config(),
                drone_id.0@,
                *telemetry,
            ),
    {
        let n: usize = self.drones.len();
        let mut i: usize = 0;
        let mut found: Option<usize> = None;
        while i < n
            invariant
                i <= n,
                n == self.drones@.len(),
                found is None ==> find_drone(self.drones@, drone_id.0@, 0) == find_drone(
                    self.drones@,
                    drone_id.0@,
                    i as int,
                ),
                found matches Some(f) ==> find_drone(self.drones@, drone_id.0@, 0) == Some(f as int)
                    && (f as int) < n,
            decreases n - i,
        {
            if found.is_none() && self.drones[i].drone.id.0 == drone_id.0 {
                found = Some(i);
                proof {
                    assert(find_drone(self.drones@, drone_id.0@, i as int) == Some(i as int));
                }
            } else {
                proof {
                    if found is None {
                        assert(find_drone(self.drones@, drone_id.0@, i as int) == find_drone(
                            self.drones@,
                            drone_id.0@,
                            i + 1,
                        ));
                    }
                }
            }
            i += 1;
        }
        let di: usize = match found {
            Some(f) => f,
            None => {
                proof {
                    assert(find_drone(self.drones@, drone_id.0@, n as int) is None);
                }
                return UpdateOutcome { events: Vec::new(), alerts: Vec::new() };
            },
        };

        let ghost pre = self.drones@;
        let mut events: Vec<Event> = Vec::new();

        // Step 1: record the sample.
        let entry = &mut self.drones[di];
        entry.update_position(*position, *telemetry, at_ms);
        proof {
            assert(forall|k: int| 0 <= k < pre.len() && k != di as int ==> self.drones@[k] == pre[k]);
            assert(self.drones@[di as int].waypoint_index == pre[di as int].waypoint_index);
        }

        // Step 2: waypoint progress against the active mission.
        let idx: usize = self.drones[di].waypoint_index;
        let arrival: Option<Event> = match &self.mission {
            Some(m) => {
                if m.status == MissionStatus::Active && idx < m.waypoints.len() {
                    let wp = &m.waypoints[idx];
                    let dist: u64 = position.distance_m(&wp.position);
                    if dist < self.config.waypoint_threshold_m {
                        Some(
                            Event::waypoint_reached(
                                at_ms,
                                drone_id.clone(),
                                wp.id.clone(),
                                *position,
                            ),
                        )
                    } else {
                        None
                    }
                } else {
                    None
                }
            },
            None => None,
        };
        proof {
            assert(arrival is Some <==> spec_arrival(
                self.mission,
                pre,
                drone_id.0@,
                *position,
                self.config.waypoint_threshold_m as int,
            ));
        }
        let mut reached: bool = false;
        match arrival {
            Some(ev) => {
                let ghost mid = self.drones@;
                let entry = &mut self.drones[di];
                proof {
                    assert((entry.waypoint_index as int) < self.mission->Some_0.waypoints@.len());
                }
                if entry.waypoint_index < usize::MAX {
                    entry.waypoint_index = entry.waypoint_index + 1;
                }
                entry.waypoint_progress_permille = 0;
                events.push(ev);
                reached = true;
                proof {
                    assert(events@[0].event_type == EventType::WaypointReached);
                    assert(forall|k: int|
                        0 <= k < pre.len() && k != di as int ==> self.drones@[k] == mid[k]);
                    assert(self.drones@[di as int].waypoint_index == pre[di as int].waypoint_index
                        + 1);
                }
            },
            None => {
                // Progress along the current leg when between waypoints.
                let idx2: usize = self.drones[di].waypoint_index;
                let prog: Option<u32> = match &self.mission {
                    Some(m) => {
                        if m.status == MissionStatus::Active && idx2 > 0 && idx2
                            < m.waypoints.len() {
                            let cur = &m.waypoints[idx2];
                            let prev = &m.waypoints[idx2 - 1];
                            let total: u64 = prev.position.distance_m(&cur.position);
                            let remaining: u64 = position.distance_m(&cur.position);
                            if total > 0 {
                                let f: u128 = (remaining as u128) * 1000 / (total as u128);
                                let fc: u32 = if f > 1000 {
                                    1000
                                } else {
                                    f as u32
                                };
                                proof {
                                    assert((1000 - fc) as int == spec_leg_progress(
                                        total as int,
                                        remaining as int,
                                    ));
                                }
                                Some(1000 - fc)
                            } else {
                                None
                            }
                        } else {
                            None
                        }
                    },
                    None => None,
                };
                if let Some(p) = prog {
                    let ghost mid = self.drones@;
                    let entry = &mut self.drones[di];
                    entry.waypoint_progress_permille = p;
                    proof {
                        assert(forall|k: int|
                            0 <= k < pre.len() && k != di as int ==> self.drones@[k] == mid[k]);
                    }
                }
            },
        }

        // Step 3: the alert rules on this sample.
        let alerts: Vec<Alert> = evaluate_alerts(&self.config, drone_id, telemetry);

        // Step 4: the position-updated event, last.
        events.push(
            Event::drone_position_updated(at_ms, drone_id.clone(), *position, *telemetry),
        );
        proof {
            if reached {
                assert(events@[0].event_type == EventType::WaypointReached);
                assert(exists|k: int|
                    0 <= k < events@.len() && (#[trigger] events@[k]).event_type
                        == EventType::WaypointReached);
            } else {
                assert(events@.len() == 1);
                assert(events@[0].event_type == EventType::DronePositionUpdated);
                assert(forall|k: int|
                    0 <= k < events@.len() ==> (#[trigger] events@[k]).event_type
                        != EventType::WaypointReached);
            }
            assert(events@.last().event_type == EventType::DronePositionUpdated);
        }

        UpdateOutcome { events, alerts }
    }

    /// Sets the active mission and resets waypoint progress for every
    /// drone the mission assigns.
    pub fn set_mission(&mut self, mission: Mission)
        requires
            old(self).wf(),
            forall|i: int|
                0 <= i < mission.waypoints@.len() ==> (
                #[trigger] mission.waypoints@[i]).position.valid(),
        ensures
            final(self).wf(),
            final(self).spec_mission() == Some(mission),
            final(self).spec_config() == old(self).spec_config(),
            final(self).spec_running() == old(self).spec_running(),
            final(self).spec_drones().len() == old(self).spec_drones().len(),
            // Every drone the mission assigns restarts the route; every
            // other drone keeps its state.
            forall|k: int|
                0 <= k < old(self).spec_drones().len() ==> {
                    let o = old(self).spec_drones()[k];
                    let f = #[trigger] final(self).spec_drones()[k];
                    if mission_assigns(mission, o.drone.id.0@) {
                        &&& f.waypoint_index == 0
                        &&& f.waypoint_progress_permille == 0
                        &&& f.drone == o.drone
                        &&& f.last_update_ms == o.last_update_ms
                        &&& f.position_history == o.position_history
                        &&& f.active_alerts == o.active_alerts
                    } else {
                        f == o
                    }
                },
    {
        let ghost pre0 = self.drones@;
        let nd: usize = self.drones.len();
        let na: usize = mission.assigned_drones.len();
        let mut i: usize = 0;
        while i < nd
            invariant
                i <= nd,
                nd == self.drones@.len(),
                na == mission.assigned_drones@.len(),
                pre0 == old(self).drones@,
                forall|k: int| 0 <= k < self.drones@.len() ==> (#[trigger] self.drones@[k]).wf(),
                forall|k1: int, k2: int|
                    0 <= k1 < k2 < self.drones@.len() ==> self.drones@[k1].drone.id.0@
                        != self.drones@[k2].drone.id.0@,
                self.mission == old(self).mission,
                self.config == old(self).config,
                self.running == old(self).running,
                forall|k: int| i <= k < nd ==> #[trigger] self.drones@[k] == pre0[k],
                forall|k: int|
                    0 <= k < i ==> {
                        let o = pre0[k];
                        let f = #[trigger] self.drones@[k];
                        if mission_assigns(mission, o.drone.id.0@) {
                            &&& f.waypoint_index == 0
                            &&& f.waypoint_progress_permille == 0
                            &&& f.drone == o.drone
                            &&& f.last_update_ms == o.last_update_ms
                            &&& f.position_history == o.position_history
                            &&& f.active_alerts == o.active_alerts
                        } else {
                            f == o
                        }
                    },
            decreases nd - i,
        {
            let mut assigned: bool = false;
            let mut j: usize = 0;
            while j < na
                invariant
                    j <= na,
                    i < nd,
                    nd == self.drones@.len(),
                    na == mission.assigned_drones@.len(),
                    assigned == (exists|q: int|
                        0 <= q < j && (#[trigger] mission.assigned_drones@[q]).0@
                            == self.drones@[i as int].drone.id.0@),
                decreases na - j,
            {
                if mission.assigned_drones[j].0 == self.drones[i].drone.id.0 {
                    assigned = true;
                }
                j += 1;
            }
            proof {
                assert(assigned == mission_assigns(mission, self.drones@[i as int].drone.id.0@));
            }
            if assigned {
                let ghost pre = self.drones@;
                let entry = &mut self.drones[i];
                entry.waypoint_index = 0;
                entry.waypoint_progress_permille = 0;
                proof {
                    assert(self.drones@[i as int].drone.id.0@ == pre[i as int].drone.id.0@);
                    assert(forall|k: int|
                        0 <= k < self.drones@.len() && k != i as int ==> self.drones@[k] == pre[k]);
                }
            }
            i += 1;
        }
        self.mission = Some(mission);
    }

    /// The active mission, by value.
    pub fn get_mission(&self) -> (r: Option<Mission>)
        ensures
            r is Some <==> self.spec_mission() is Some,
            self.spec_mission() matches Some(m) ==> (r matches Some(rm) && mission_like(rm, m)),
    {
        match &self.mission {
            Some(m) => Some(clone_mission(m)),
            None => None,
        }
    }

    /// The tracked record of one drone, by value.
    pub fn get_drone(&self, id: &DroneId) -> (r: Option<TrackedDrone>)
        requires
            self.wf(),
        ensures
            r is Some <==> find_drone(self.spec_drones(), id.0@, 0) is Some,
            find_drone(self.spec_drones(), id.0@, 0) matches Some(i) ==> (r matches Some(t)
                && tracked_like(t, self.spec_drones()[i])),
    {
        let n: usize = self.drones.len();
        let mut i: usize = 0;
        while i < n
            invariant
                i <= n,
                n == self.drones@.len(),
                self.wf(),
                find_drone(self.drones@, id.0@, 0) == find_drone(self.drones@, id.0@, i as int),
            decreases n - i,
        {
            if self.drones[i].drone.id.0 == id.0 {
                proof {
                    assert(find_drone(self.drones@, id.0@, i as int) == Some(i as int));
                }
                return Some(clone_tracked(&self.drones[i]));
            }
            proof {
                assert(find_drone(self.drones@, id.0@, i as int) == find_drone(
                    self.drones@,
                    id.0@,
                    i + 1,
                ));
            }
            i += 1;
        }
        None
    }

    /// All tracked drones, by value.
    pub fn get_all_drones(&self) -> (r: Vec<TrackedDrone>)
        requires
            self.wf(),
        ensures
            r@.len() == self.spec_drones().len(),
            forall|k: int|
                0 <= k < r@.len() ==> tracked_like(#[trigger] r@[k], self.spec_drones()[k]),
    {
        let n: usize = self.drones.len();
        let mut out: Vec<TrackedDrone> = Vec::new();
        let mut i: usize = 0;
        while i < n
            invariant
                i <= n,
                n == self.drones@.len(),
                self.wf(),
                out@.len() == i,
                forall|k: int| 0 <= k < i ==> tracked_like(#[trigger] out@[k], self.drones@[k]),
            decreases n - i,
        {
            out.push(clone_tracked(&self.drones[i]));
            i += 1;
        }
        out
    }

    /// The number of tracked drones.
    pub fn drone_count(&self) -> (r: usize)
        ensures
            r == self.spec_drones().len(),
    {
        self.drones.len()
    }

    /// Marks the tracker running.
    pub fn start(&mut self)
        requires
            old(self).wf(),
        ensures
            final(self).wf(),
            final(self).spec_running(),
            final(self).spec_drones() == old(self).spec_drones(),
            final(self).spec_mission() == old(self).spec_mission(),
    {
        self.running = true;
    }

    /// Marks the tracker stopped.
    pub fn stop(&mut self)
        requires
            old(self).wf(),
        ensures
            final(self).wf(),
            !final(self).spec_running(),
            final(self).spec_drones() == old(self).spec_drones(),
            final(self).spec_mission() == old(self).spec_mission(),
    {
        self.running = false;
    }

    pub fn is_running(&self) -> (r: bool)
        ensures
            r == self.spec_running(),
    {
        self.running
    }

    /// Ids of the drones whose last update is older than the timeout:
    /// exactly the stale drones, in tracker order.
    pub fn check_stale_drones(&self, timeout_ms: i64, now_ms: i64) -> (r: Vec<DroneId>)
        ensures
            r@.len() == count_stale(self.spec_drones(), timeout_ms as int, now_ms as int),
            r@.map_values(|d: DroneId| d.0@) == stale_ids(
                self.spec_drones(),
                timeout_ms as int,
                now_ms as int,
            ),
    {
        let n: usize = self.drones.len();
        let mut out: Vec<DroneId> = Vec::new();
        let mut i: usize = 0;
        while i < n
            invariant
                i <= n,
                n == self.drones@.len(),
                out@.len() == count_stale(
                    self.spec_drones().take(i as int),
                    timeout_ms as int,
                    now_ms as int,
                ),
                out@.map_values(|d: DroneId| d.0@) == stale_ids(
                    self.spec_drones().take(i as int),
                    timeout_ms as int,
                    now_ms as int,
                ),
            decreases n - i,
        {
            let ghost pre = out@;
            if self.drones[i].is_stale(timeout_ms, now_ms) {
                out.push(self.drones[i].drone.id.clone());
                proof {
                    assert(out@.map_values(|d: DroneId| d.0@) =~= pre.map_values(
                        |d: DroneId| d.0@,
                    ).push(self.drones@[i as int].drone.id.0@));
                }
            }
            proof {
                assert(self.spec_drones().take(i + 1 as int).drop_last() =~= self.spec_drones()
                    .take(i as int));
                assert(self.spec_drones().take(i + 1 as int).last() == self.spec_drones()[i as int]);
            }
            i += 1;
        }
        proof {
            assert(self.spec_drones().take(n as int) =~= self.spec_drones());
        }
        out
    }
}

/// All events of one update share its timestamp, so their timestamps are
/// monotonically non-decreasing in emission order.
pub proof fn lemma_update_events_monotone(events: Seq<Event>, at_ms: i64)
    requires
        forall|k: int| 0 <= k < events.len() ==> (#[trigger] events[k]).timestamp_ms == at_ms,
    ensures
        forall|i: int, j: int|
            0 <= i <= j < events.len() ==> events[i].timestamp_ms <= events[j].timestamp_ms,
{
}

/// The battery alert one sample raises, if any: critical below the
/// critical threshold, else a warning below the warning threshold, with
/// the exact message text.
pub open spec fn spec_battery_alert(cfg: TrackerConfig, t: Telemetry) -> Option<
    (AlertSeverity, Seq<char>),
> {
    if t.battery_level < cfg.battery_critical_threshold {
        Some(
            (
                AlertSeverity::Critical,
                spec_level_message("Battery critical: "@, t.battery_level as int),
            ),
        )
    } else if t.battery_level < cfg.battery_warning_threshold {
        Some((AlertSeverity::Warning, spec_level_message("Battery low: "@, t.battery_level as int)))
    } else {
        None
    }
}

/// The fuel alert one sample raises, if any.
pub open spec fn spec_fuel_alert(cfg: TrackerConfig, t: Telemetry) -> Option<
    (AlertSeverity, Seq<char>),
> {
    if t.fuel_level < cfg.fuel_critical_threshold {
        Some((AlertSeverity::Critical, spec_level_message("Fuel critical: "@, t.fuel_level as int)))
    } else if t.fuel_level < cfg.fuel_warning_threshold {
        Some((AlertSeverity::Warning, spec_level_message("Fuel low: "@, t.fuel_level as int)))
    } else {
        None
    }
}

/// The alerts of one sample, exactly: the battery alert if raised, then
/// the fuel alert if raised, each carrying its severity, its message text
/// and the drone's id — and nothing else.
pub open spec fn alerts_pinned(
    r: Seq<Alert>,
    cfg: TrackerConfig,
    id: Seq<char>,
    t: Telemetry,
) -> bool {
    let nb: int = if spec_battery_alert(cfg, t) is Some {
        1
    } else {
        0
    };
    let nf: int = if spec_fuel_alert(cfg, t) is Some {
        1
    } else {
        0
    };
    &&& r.len() == nb + nf
    &&& (spec_battery_alert(cfg, t) matches Some(ba) ==> {
        &&& r[0].severity == ba.0
        &&& r[0].alert_type is BatteryLow
        &&& r[0].message@ == ba.1
        &&& (r[0].drone_id matches Some(d) && d.0@ == id)
    })
    &&& (spec_fuel_alert(cfg, t) matches Some(fa) ==> {
        &&& r[nb].severity == fa.0
        &&& r[nb].alert_type is FuelLow
        &&& r[nb].message@ == fa.1
        &&& (r[nb].drone_id matches Some(d) && d.0@ == id)
    })
}

/// Evaluates the level-triggered alert rules for one sample: critical
/// battery below the critical threshold, else a battery warning below the
/// warning threshold; the same for fuel; no other alert. The rules
/// re-fire on every sample while the level holds.
fn evaluate_alerts(cfg: &TrackerConfig, drone_id: &DroneId, telemetry: &Telemetry) -> (r: Vec<
    Alert,
>)
    ensures
        alerts_pinned(r@, *cfg, drone_id.0@, *telemetry),
{
    let mut alerts: Vec<Alert> = Vec::new();
    if telemetry.battery_level < cfg.battery_critical_threshold {
        let msg = level_message("Battery critical: ", telemetry.battery_level);
        alerts.push(
            Alert::new(AlertSeverity::Critical, AlertType::BatteryLow, msg).for_drone(
                drone_id.clone(),
            ),
        );
        proof {
            assert(alerts@[0].severity == AlertSeverity::Critical && alerts@[0].alert_type
                is BatteryLow);
        }
    } else if telemetry.battery_level < cfg.battery_warning_threshold {
        let msg = level_message("Battery low: ", telemetry.battery_level);
        alerts.push(
            Alert::new(AlertSeverity::Warning, AlertType::BatteryLow, msg).for_drone(
                drone_id.clone(),
            ),
        );
        proof {
            assert(alerts@[0].severity == AlertSeverity::Warning && alerts@[0].alert_type
                is BatteryLow);
        }
    }
    let ghost nbat = alerts@.len();
    if telemetry.fuel_level < cfg.fuel_critical_threshold {
        let msg = level_message("Fuel critical: ", telemetry.fuel_level);
        alerts.push(
            Alert::new(AlertSeverity::Critical, AlertType::FuelLow, msg).for_drone(
                drone_id.clone(),
            ),
        );
        proof {
            assert(alerts@[nbat as int].severity == AlertSeverity::Critical
                && alerts@[nbat as int].alert_type is FuelLow);
        }
    } else if telemetry.fuel_level < cfg.fuel_warning_threshold {
        let msg = level_message("Fuel low: ", telemetry.fuel_level);
        alerts.push(
            Alert::new(AlertSeverity::Warning, AlertType::FuelLow, msg).for_drone(
                drone_id.clone(),
            ),
        );
        proof {
            assert(alerts@[nbat as int].severity == AlertSeverity::Warning
                && alerts@[nbat as int].alert_type is FuelLow);
        }
    }
    alerts
}

/// A value copy of a tracked drone.
fn clone_tracked(t: &TrackedDrone) -> (r: TrackedDrone)
    requires
        t.wf(),
    ensures
        r.wf(),
        tracked_like(r, *t),
{
    let n: usize = t.position_history.len();
    let mut hist: Vec<(i64, GeoPos)> = Vec::new();
    let mut i: usize = 0;
    while i < n
        invariant
            i <= n,
            n == t.position_history@.len(),
            hist@.len() == i,
            forall|k: int| 0 <= k < i ==> (#[trigger] hist@[k]) == t.position_history@[k],
        decreases n - i,
    {
        hist.push(t.position_history[i]);
        i += 1;
    }
    proof {
        assert(hist@ =~= t.position_history@);
    }
    let na: usize = t.active_alerts.len();
    let mut alerts: Vec<Alert> = Vec::new();
    let mut i: usize = 0;
    while i < na
        invariant
            i <= na,
            na == t.active_alerts@.len(),
            alerts@.len() == i,
        decreases na - i,
    {
        alerts.push(t.active_alerts[i].clone());
        i += 1;
    }
    TrackedDrone {
        drone: t.drone.clone(),
        waypoint_index: t.waypoint_index,
        waypoint_progress_permille: t.waypoint_progress_permille,
        last_update_ms: t.last_update_ms,
        position_history: hist,
        active_alerts: alerts,
    }
}

/// A value copy of a mission: same route, assignments, status and times.
pub fn clone_mission(m: &Mission) -> (r: Mission)
    ensures
        mission_like(r, *m),
{
    let n: usize = m.waypoints.len();
    let mut wps: Vec<crate::domain::Waypoint> = Vec::new();
    let mut i: usize = 0;
    while i < n
        invariant
            i <= n,
            n == m.waypoints@.len(),
            wps@.len() == i,
            forall|k: int| 0 <= k < i ==> waypoint_like(#[trigger] wps@[k], m.waypoints@[k]),
        decreases n - i,
    {
        let wp = &m.waypoints[i];
        wps.push(
            crate::domain::Waypoint {
                id: wp.id.clone(),
                name: wp.name.clone(),
                position: wp.position,
                waypoint_type: wp.waypoint_type,
                expected_arrival_ms: wp.expected_arrival_ms,
                actual_arrival_ms: wp.actual_arrival_ms,
                loiter_time_seconds: wp.loiter_time_seconds,
            },
        );
        i += 1;
    }
    let na: usize = m.assigned_drones.len();
    let mut ids: Vec<DroneId> = Vec::new();
    let mut i: usize = 0;
    while i < na
        invariant
            i <= na,
            na == m.assigned_drones@.len(),
            ids@.len() == i,
            forall|k: int|
                0 <= k < i ==> (#[trigger] ids@[k]).0@ == m.assigned_drones@[k].0@,
        decreases na - i,
    {
        ids.push(m.assigned_drones[i].clone());
        i += 1;
    }
    Mission {
        id: m.id,
        name: m.name.clone(),
        description: match &m.description {
            Some(d) => Some(d.clone()),
            None => None,
        },
        status: m.status,
        waypoints: wps,
        assigned_drones: ids,
        start_time_ms: m.start_time_ms,
        end_time_ms: m.end_time_ms,
        created_at_ms: m.created_at_ms,
        updated_at_ms: m.updated_at_ms,
    }
}

} // verus!
