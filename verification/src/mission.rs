//! Mission execution: waypoint progression per drone against the active
//! mission.
//!
//! The executor keeps, for every drone, the index of its next waypoint and
//! the ordered list of waypoints it has completed. Two facts are held as
//! invariants and exposed as lemmas: the index never exceeds the route
//! length, and the completed list is exactly the route prefix before the
//! index — so arrivals are reported strictly in route order.

use vstd::prelude::*;
use crate::domain::{DroneId, Mission, MissionStatus, Waypoint, WaypointId};
use crate::geo::{spec_distance_m, GeoPos};

verus! {

/// Progress of one drone along the route.
#[derive(Clone, Debug)]
pub struct WaypointProgress {
    /// Index of the next waypoint to reach.
    pub current_index: usize,
    /// Progress toward the next waypoint, permille of the leg.
    pub progress_to_next_permille: u32,
    /// Waypoints completed so far, in arrival order.
    pub waypoints_completed: Vec<WaypointId>,
    /// Estimated arrival at the next waypoint, Unix milliseconds.
    pub estimated_arrival_ms: Option<i64>,
}

impl WaypointProgress {
    pub fn new() -> (r: WaypointProgress)
        ensures
            r.current_index == 0,
            r.progress_to_next_permille == 0,
            r.waypoints_completed@.len() == 0,
            r.estimated_arrival_ms is None,
    {
        WaypointProgress {
            current_index: 0,
            progress_to_next_permille: 0,
            waypoints_completed: Vec::new(),
            estimated_arrival_ms: None,
        }
    }
}

impl Default for WaypointProgress {
    fn default() -> (r: WaypointProgress)
        ensures
            r.current_index == 0,
            r.waypoints_completed@.len() == 0,
    {
        WaypointProgress::new()
    }
}

/// Announcement that a drone reached a waypoint.
#[derive(Clone, Debug)]
pub struct WaypointReached {
    pub drone_id: DroneId,
    pub waypoint_id: WaypointId,
    pub waypoint_name: String,
    pub position: GeoPos,
    pub index: usize,
}

/// The index of the first entry for the given drone id.
pub open spec fn find_entry(s: Seq<(DroneId, WaypointProgress)>, id: Seq<char>, k: int) -> Option<
    int,
>
    decreases s.len() - k,
{
    if k < 0 || k >= s.len() {
        None
    } else if s[k].0.0@ == id {
        Some(k)
    } else {
        find_entry(s, id, k + 1)
    }
}

/// Executes waypoint progression for the active mission.
pub struct MissionExecutor {
    mission: Option<Mission>,
    drone_progress: Vec<(DroneId, WaypointProgress)>,
    start_time_ms: Option<i64>,
    threshold_m: u64,
}

impl MissionExecutor {
    pub closed spec fn spec_mission(self) -> Option<Mission> {
        self.mission
    }

    pub closed spec fn spec_entries(self) -> Seq<(DroneId, WaypointProgress)> {
        self.drone_progress@
    }

    pub closed spec fn spec_threshold_m(self) -> int {
        self.threshold_m as int
    }

    /// The executor's invariant: against the set mission, every drone's
    /// index stays within the route, and its completed list is exactly
    /// the route prefix before the index.
    pub closed spec fn wf(self) -> bool {
        self.mission matches Some(m) ==> {
            &&& (forall|i: int|
                0 <= i < m.waypoints@.len() ==> (#[trigger] m.waypoints@[i]).position.valid())
            &&& (forall|k: int|
                0 <= k < self.drone_progress@.len() ==> {
                    let p = (#[trigger] self.drone_progress@[k]).1;
                    &&& p.current_index as int <= m.waypoints@.len()
                    &&& p.waypoints_completed@.len() == p.current_index as int
                    &&& (forall|j: int|
                        0 <= j < p.current_index as int ==> (
                        #[trigger] p.waypoints_completed@[j]).0@ == m.waypoints@[j].id.0@)
                })
        }
    }

    /// Against the set mission, every drone's completed waypoints are the
    /// route prefix before its current index, in route order — so a later
    /// waypoint is never completed before an earlier one.
    pub proof fn lemma_completed_are_route_prefix(self)
        requires
            self.wf(),
            self.spec_mission() is Some,
        ensures
            forall|k: int|
                0 <= k < self.spec_entries().len() ==> {
                    let p = (#[trigger] self.spec_entries()[k]).1;
                    &&& p.current_index as int <= self.spec_mission()->Some_0.waypoints@.len()
                    &&& p.waypoints_completed@.len() == p.current_index as int
                    &&& (forall|j: int|
                        0 <= j < p.current_index as int ==> (
                        #[trigger] p.waypoints_completed@[j]).0@ == self.spec_mission()->Some_0.waypoints@[j].id.0@)
                },
    {
    }

    pub fn new() -> (r: MissionExecutor)
        ensures
            r.wf(),
            r.spec_mission() is None,
            r.spec_entries().len() == 0,
            r.spec_threshold_m() == 500,
    {
        MissionExecutor {
            mission: None,
            drone_progress: Vec::new(),
            start_time_ms: None,
            threshold_m: 500,
        }
    }

    /// Sets the active mission and resets progress for every assigned
    /// drone to the start of the route.
    pub fn set_mission(&mut self, mission: Mission)
        requires
            forall|i: int|
                0 <= i < mission.waypoints@.len() ==> (
                #[trigger] mission.waypoints@[i]).position.valid(),
        ensures
            final(self).wf(),
            final(self).spec_mission() == Some(mission),
            final(self).spec_entries().len() == mission.assigned_drones@.len(),
            forall|k: int|
                0 <= k < final(self).spec_entries().len() ==> (#[trigger] final(self).spec_entries()[k]).1.current_index
                    == 0 && final(self).spec_entries()[k].0.0@
                    == mission.assigned_drones@[k].0@,
    {
        let mut entries: Vec<(DroneId, WaypointProgress)> = Vec::new();
        let n: usize = mission.assigned_drones.len();
        let mut i: usize = 0;
        while i < n
            invariant
                i <= n,
                n == mission.assigned_drones@.len(),
                entries@.len() == i,
                forall|k: int|
                    0 <= k < i ==> (#[trigger] entries@[k]).1.current_index == 0 && entries@[k].0.0@
                        == mission.assigned_drones@[k].0@ && entries@[k].1.waypoints_completed@.len()
                        == 0,
            decreases n - i,
        {
            entries.push((DroneId::from_string(mission.assigned_drones[i].0.clone()), WaypointProgress::new()));
            i += 1;
        }
        self.drone_progress = entries;
        self.mission = Some(mission);
    }

    /// Starts the mission at the given time: only the status and the
    /// times change; the route and the assignments stay.
    pub fn start(&mut self, at_ms: i64)
        requires
            old(self).wf(),
        ensures
            final(self).wf(),
            old(self).spec_mission() matches Some(om) ==> final(self).spec_mission() == Some(
                (Mission {
                    status: MissionStatus::Active,
                    start_time_ms: Some(at_ms),
                    updated_at_ms: at_ms,
                    ..om
                }),
            ),
            old(self).spec_mission() is None ==> *final(self) == *old(self),
            final(self).spec_entries() == old(self).spec_entries(),
            final(self).spec_threshold_m() == old(self).spec_threshold_m(),
    {
        if let Some(m) = &mut self.mission {
            m.status = MissionStatus::Active;
            m.start_time_ms = Some(at_ms);
            m.updated_at_ms = at_ms;
            self.start_time_ms = Some(at_ms);
        }
    }

    /// Pauses the mission; everything but the status stays.
    pub fn pause(&mut self)
        requires
            old(self).wf(),
        ensures
            final(self).wf(),
            old(self).spec_mission() matches Some(om) ==> final(self).spec_mission() == Some(
                (Mission { status: MissionStatus::Paused, ..om }),
            ),
            old(self).spec_mission() is None ==> *final(self) == *old(self),
            final(self).spec_entries() == old(self).spec_entries(),
            final(self).spec_threshold_m() == old(self).spec_threshold_m(),
    {
        if let Some(m) = &mut self.mission {
            m.status = MissionStatus::Paused;
        }
    }

    /// Resumes a paused mission; everything but the status stays.
    pub fn resume(&mut self)
        requires
            old(self).wf(),
        ensures
            final(self).wf(),
            old(self).spec_mission() matches Some(om) ==> final(self).spec_mission() == Some(
                (Mission { status: MissionStatus::Active, ..om }),
            ),
            old(self).spec_mission() is None ==> *final(self) == *old(self),
            final(self).spec_entries() == old(self).spec_entries(),
            final(self).spec_threshold_m() == old(self).spec_threshold_m(),
    {
        if let Some(m) = &mut self.mission {
            m.status = MissionStatus::Active;
        }
    }

    /// Aborts the mission; everything but the status stays.
    pub fn abort(&mut self)
        requires
            old(self).wf(),
        ensures
            final(self).wf(),
            old(self).spec_mission() matches Some(om) ==> final(self).spec_mission() == Some(
                (Mission { status: MissionStatus::Aborted, ..om }),
            ),
            old(self).spec_mission() is None ==> *final(self) == *old(self),
            final(self).spec_entries() == old(self).spec_entries(),
            final(self).spec_threshold_m() == old(self).spec_threshold_m(),
    {
        if let Some(m) = &mut self.mission {
            m.status = MissionStatus::Aborted;
        }
    }

    /// Completes the mission; everything but the status stays.
    pub fn complete(&mut self)
        requires
            old(self).wf(),
        ensures
            final(self).wf(),
            old(self).spec_mission() matches Some(om) ==> final(self).spec_mission() == Some(
                (Mission { status: MissionStatus::Completed, ..om }),
            ),
            old(self).spec_mission() is None ==> *final(self) == *old(self),
            final(self).spec_entries() == old(self).spec_entries(),
            final(self).spec_threshold_m() == old(self).spec_threshold_m(),
    {
        if let Some(m) = &mut self.mission {
            m.status = MissionStatus::Completed;
        }
    }

    /// Feeds one position sample for a drone.
    ///
    /// With an active mission and the drone under progress tracking, the
    /// sample either arrives at the next waypoint — within the proximity
    /// threshold — which completes that waypoint and advances the index,
    /// or updates the progress and estimated arrival along the current
    /// leg. An arrival is returned exactly when the mission is active,
    /// the drone is tracked with route left, and the sample is within the
    /// threshold of the next waypoint.
    pub fn update_drone_position(
        &mut self,
        drone_id: &DroneId,
        position: &GeoPos,
        speed_ckmh: u32,
        at_ms: i64,
    ) -> (r: Option<WaypointReached>)
        requires
            old(self).wf(),
            position.valid(),
        ensures
            final(self).wf(),
            final(self).spec_mission() == old(self).spec_mission(),
            final(self).spec_threshold_m() == old(self).spec_threshold_m(),
            final(self).spec_entries().len() == old(self).spec_entries().len(),
            // Ids are stable; an index never decreases, grows by at most
            // one per call, and never exceeds the route length.
            forall|k: int|
                0 <= k < old(self).spec_entries().len() ==> {
                    let o = old(self).spec_entries()[k];
                    let f = #[trigger] final(self).spec_entries()[k];
                    &&& f.0 == o.0
                    &&& f.1.current_index >= o.1.current_index
                    &&& f.1.current_index <= o.1.current_index + 1
                },
            // A sample that changes nothing: no active mission, a drone
            // not under tracking, or a route already traversed.
            (old(self).spec_mission() is None || old(self).spec_mission()->Some_0.status
                != MissionStatus::Active) ==> *final(self) == *old(self),
            find_entry(old(self).spec_entries(), drone_id.0@, 0) is None ==> *final(self) == *old(self),
            (find_entry(old(self).spec_entries(), drone_id.0@, 0) matches Some(k) && (old(self).spec_mission() matches Some(m) && (old(self).spec_entries()[k].1.current_index as int)
                >= m.waypoints@.len())) ==> *final(self) == *old(self),
            // Every other drone's progress record stays.
            find_entry(old(self).spec_entries(), drone_id.0@, 0) matches Some(k) ==> (forall|j: int|
                0 <= j < old(self).spec_entries().len() && j != k
                    ==> final(self).spec_entries()[j] == old(self).spec_entries()[j]),
            r is Some <==> (old(self).spec_mission() matches Some(m) && (m.status
                == MissionStatus::Active && (find_entry(old(self).spec_entries(), drone_id.0@, 0)
                matches Some(k) && ((old(self).spec_entries()[k].1.current_index as int)
                < m.waypoints@.len() && spec_distance_m(
                *position,
                m.waypoints@[old(self).spec_entries()[k].1.current_index as int].position,
            ) < old(self).spec_threshold_m())))),
            // An arrival names the reached waypoint exactly, completes it,
            // advances the index by one and resets the leg progress.
            r matches Some(w) ==> (find_entry(old(self).spec_entries(), drone_id.0@, 0) matches
                Some(k) && (w.index == old(self).spec_entries()[k].1.current_index
                && final(self).spec_entries()[k].1.current_index == w.index + 1
                && final(self).spec_entries()[k].1.progress_to_next_permille == 0
                && w.drone_id.0@ == drone_id.0@ && (old(self).spec_mission() matches Some(m)
                && w.waypoint_id.0@ == m.waypoints@[w.index as int].id.0@ && w.waypoint_name@
                == m.waypoints@[w.index as int].name@ && w.position
                == m.waypoints@[w.index as int].position))),
    {
        let (active, nwp): (bool, usize) = match &self.mission {
            Some(m) => (m.status == MissionStatus::Active, m.waypoints.len()),
            None => (false, 0),
        };
        if !active {
            return None;
        }
        let n: usize = self.drone_progress.len();
        let mut i: usize = 0;
        let mut found: Option<usize> = None;
        while i < n
            invariant
                i <= n,
                n == self.drone_progress@.len(),
                found is None ==> find_entry(self.drone_progress@, drone_id.0@, 0) == find_entry(
                    self.drone_progress@,
                    drone_id.0@,
                    i as int,
                ),
                found matches Some(f) ==> find_entry(self.drone_progress@, drone_id.0@, 0) == Some(
                    f as int,
                ) && (f as int) < n,
            decreases n - i,
        {
            if found.is_none() && self.drone_progress[i].0.0 == drone_id.0 {
                found = Some(i);
                proof {
                    assert(find_entry(self.drone_progress@, drone_id.0@, i as int) == Some(
                        i as int,
                    ));
                }
            } else {
                proof {
                    if found is None {
                        assert(find_entry(self.drone_progress@, drone_id.0@, i as int)
                            == find_entry(self.drone_progress@, drone_id.0@, i + 1));
                    }
                }
            }
            i += 1;
        }
        let pi: usize = match found {
            Some(f) => f,
            None => {
                proof {
                    assert(find_entry(self.drone_progress@, drone_id.0@, n as int) is None);
                }
                return None;
            },
        };
        let idx: usize = self.drone_progress[pi].1.current_index;
        if idx >= nwp {
            return None;
        }
        let ghost m0 = self.mission->Some_0;
        let (wp_id, wp_name, wp_pos): (WaypointId, String, GeoPos) = match &self.mission {
            Some(m) => {
                let wp = &m.waypoints[idx];
                (wp.id.clone(), wp.name.clone(), wp.position)
            },
            None => {
                return None;
            },
        };
        let dist: u64 = position.distance_m(&wp_pos);
        if dist < self.threshold_m {
            let reached = WaypointReached {
                drone_id: drone_id.clone(),
                waypoint_id: wp_id.clone(),
                waypoint_name: wp_name,
                position: wp_pos,
                index: idx,
            };
            let entry = &mut self.drone_progress[pi];
            entry.1.waypoints_completed.push(wp_id);
            entry.1.current_index = idx + 1;
            entry.1.progress_to_next_permille = 0;
            return Some(reached);
        }
        // Progress along the current leg, and the arrival estimate.
        let total: u64 = if idx > 0 {
            let prev_pos: GeoPos = match &self.mission {
                Some(m) => m.waypoints[idx - 1].position,
                None => wp_pos,
            };
            prev_pos.distance_m(&wp_pos)
        } else {
            dist + 1000
        };
        let frac: u64 = if total > 0 {
            let f = (dist as u128) * 1000 / (total as u128);
            if f > 1000 {
                1000
            } else {
                f as u64
            }
        } else {
            1000
        };
        let eta: Option<i64> = if speed_ckmh > 0 {
            let ms: u128 = (dist as u128) * 360_000 / (speed_ckmh as u128);
            let capped: i64 = if ms > 1_000_000_000_000u128 {
                1_000_000_000_000i64
            } else {
                ms as i64
            };
            if at_ms <= i64::MAX - capped {
                Some(at_ms + capped)
            } else {
                Some(i64::MAX)
            }
        } else {
            None
        };
        let entry = &mut self.drone_progress[pi];
        entry.1.progress_to_next_permille = (1000 - frac) as u32;
        entry.1.estimated_arrival_ms = eta;
        None
    }

    /// The progress record of a drone, if tracked.
    pub fn get_progress(&self, drone_id: &DroneId) -> (r: Option<&WaypointProgress>) {
        let n: usize = self.drone_progress.len();
        let mut i: usize = 0;
        while i < n
            invariant
                i <= n,
                n == self.drone_progress@.len(),
            decreases n - i,
        {
            if self.drone_progress[i].0.0 == drone_id.0 {
                return Some(&self.drone_progress[i].1);
            }
            i += 1;
        }
        None
    }

    /// The next waypoint of a drone, if the route has one left.
    pub fn get_current_waypoint(&self, drone_id: &DroneId) -> (r: Option<&Waypoint>) {
        let idx: usize = match self.get_progress(drone_id) {
            Some(p) => p.current_index,
            None => {
                return None;
            },
        };
        match &self.mission {
            Some(m) => {
                if idx < m.waypoints.len() {
                    Some(&m.waypoints[idx])
                } else {
                    None
                }
            },
            None => None,
        }
    }

    /// The waypoint after the next one, if the route has it.
    pub fn get_next_waypoint(&self, drone_id: &DroneId) -> (r: Option<&Waypoint>) {
        let idx: usize = match self.get_progress(drone_id) {
            Some(p) => p.current_index,
            None => {
                return None;
            },
        };
        match &self.mission {
            Some(m) => {
                if idx < usize::MAX && idx + 1 < m.waypoints.len() {
                    Some(&m.waypoints[idx + 1])
                } else {
                    None
                }
            },
            None => None,
        }
    }

    /// Whether every tracked drone has traversed the whole route.
    pub fn is_complete(&self) -> (r: bool)
        ensures
            r == (self.spec_mission() matches Some(m) && (forall|k: int|
                0 <= k < self.spec_entries().len() ==> (#[trigger] self.spec_entries()[k]).1.current_index
                    as int >= m.waypoints@.len())),
    {
        let nwp: usize = match &self.mission {
            Some(m) => m.waypoints.len(),
            None => {
                return false;
            },
        };
        let n: usize = self.drone_progress.len();
        let mut i: usize = 0;
        while i < n
            invariant
                i <= n,
                n == self.drone_progress@.len(),
                self.spec_mission() matches Some(m) && nwp == m.waypoints@.len(),
                forall|k: int|
                    0 <= k < i ==> (#[trigger] self.spec_entries()[k]).1.current_index as int
                        >= nwp as int,
            decreases n - i,
        {
            if self.drone_progress[i].1.current_index < nwp {
                return false;
            }
            i += 1;
        }
        true
    }

    /// The mission status, if a mission is set.
    pub fn status(&self) -> (r: Option<MissionStatus>)
        ensures
            r is Some <==> self.spec_mission() is Some,
            r matches Some(s) ==> s == self.spec_mission()->Some_0.status,
    {
        match &self.mission {
            Some(m) => Some(m.status),
            None => None,
        }
    }

    /// Overall mission progress in permille: completed waypoints over the
    /// total expected across all tracked drones.
    pub fn overall_progress_permille(&self) -> (r: u32)
        requires
            self.wf(),
            self.spec_entries().len() <= 4_000_000_000,
            self.spec_mission() matches Some(m) ==> m.waypoints@.len() <= 4_000_000_000,
        ensures
            r <= 1000,
    {
        let nwp: usize = match &self.mission {
            Some(m) => m.waypoints.len(),
            None => {
                return 0;
            },
        };
        if nwp == 0 {
            return 0;
        }
        let n: usize = self.drone_progress.len();
        if n == 0 {
            return 0;
        }
        let mut completed: u64 = 0;
        let mut i: usize = 0;
        while i < n
            invariant
                i <= n,
                n == self.drone_progress@.len(),
                self.wf(),
                self.spec_mission() matches Some(m) && nwp == m.waypoints@.len(),
                completed <= (i as u64) * (nwp as u64),
                nwp >= 1,
                n <= 4_000_000_000,
                nwp <= 4_000_000_000,
            decreases n - i,
        {
            let c: usize = self.drone_progress[i].1.waypoints_completed.len();
            let cc: u64 = if (c as u64) > (nwp as u64) {
                nwp as u64
            } else {
                c as u64
            };
            proof {
                assert((i as int + 1) * (nwp as int) == (i as int) * (nwp as int) + (nwp as int)
                    && (i as int + 1) * (nwp as int) <= (n as int) * (nwp as int) && (n as int) * (
                nwp as int) <= 16_000_000_000_000_000_000int) by (nonlinear_arith)
                    requires
                        0 <= i as int,
                        (i as int) < (n as int),
                        1 <= nwp as int,
                        (nwp as int) <= 4_000_000_000int,
                        (n as int) <= 4_000_000_000int,
                ;
            }
            completed = completed + cc;
            i += 1;
        }
        proof {
            assert(0 <= (n as int) * (nwp as int) <= 16_000_000_000_000_000_000int)
                by (nonlinear_arith)
                requires
                    0 <= n as int,
                    (n as int) <= 4_000_000_000int,
                    0 <= nwp as int,
                    (nwp as int) <= 4_000_000_000int,
            ;
        }
        let total: u64 = (n as u64) * (nwp as u64);
        proof {
            assert((n as u64) as int * (nwp as u64) as int >= 1) by (nonlinear_arith)
                requires
                    (n as u64) as int >= 1,
                    (nwp as u64) as int >= 1,
            ;
        }
        let frac: u128 = (completed as u128) * 1000 / (total as u128);
        proof {
            assert((completed as int) * 1000 / (total as int) <= 1000) by (nonlinear_arith)
                requires
                    0 <= completed as int <= total as int,
                    1 <= total as int,
            ;
        }
        if frac > 1000 {
            1000
        } else {
            frac as u32
        }
    }

    /// Sets the waypoint proximity threshold in metres, floored at 100.
    pub fn set_threshold_m(&mut self, m: u64)
        requires
            old(self).wf(),
        ensures
            final(self).wf(),
            final(self).spec_threshold_m() == (if m < 100 {
                100int
            } else {
                m as int
            }),
            final(self).spec_mission() == old(self).spec_mission(),
            final(self).spec_entries() == old(self).spec_entries(),
    {
        self.threshold_m = if m < 100 {
            100
        } else {
            m
        };
    }
}

impl Default for MissionExecutor {
    fn default() -> (r: MissionExecutor)
        ensures
            r.wf(),
            r.spec_mission() is None,
    {
        MissionExecutor::new()
    }
}

} // verus!
