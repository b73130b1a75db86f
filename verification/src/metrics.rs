//! Metrics surface: integer gauges and counters aggregated over the
//! subsystems, with a plain-text exposition.

use vstd::prelude::*;
use crate::fmt::{dec_seq_int, fmt_i64, fmt_u64};

verus! {

/// One labelled counter.
#[derive(Debug)]
pub struct LabelledCount {
    pub label: String,
    pub value: u64,
}

/// Per-drone gauge readings.
#[derive(Debug)]
pub struct DroneGauges {
    pub drone_id: String,
    pub battery: u8,
    pub fuel: u8,
    pub speed_ckmh: u32,
    pub alt_mm: i64,
}

/// A histogram over microsecond durations with fixed bucket bounds:
/// each observation lands in every bucket whose bound it does not
/// exceed, and raises the total count and sum.
#[derive(Clone, Debug)]
pub struct DurationHistogram {
    /// Upper bounds of the buckets, microseconds, ascending.
    pub bounds_us: [u64; 9],
    /// Cumulative counts per bucket.
    pub counts: [u64; 9],
    pub total_count: u64,
    pub sum_us: u64,
}

impl DurationHistogram {
    /// A histogram over the standard latency buckets from one
    /// millisecond to one second.
    pub fn new() -> (r: DurationHistogram)
        ensures
            r.total_count == 0,
            r.sum_us == 0,
    {
        DurationHistogram {
            bounds_us: [1_000, 5_000, 10_000, 25_000, 50_000, 100_000, 250_000, 500_000, 1_000_000],
            counts: [0, 0, 0, 0, 0, 0, 0, 0, 0],
            total_count: 0,
            sum_us: 0,
        }
    }

    /// Records one observation: every bucket whose bound the duration
    /// does not exceed rises by one, as do the total count and the sum.
    pub fn observe_us(&mut self, us: u64)
        ensures
            final(self).total_count == (if old(self).total_count < u64::MAX {
                old(self).total_count + 1
            } else {
                old(self).total_count as int
            }),
            final(self).sum_us == (if old(self).sum_us <= u64::MAX - us {
                old(self).sum_us + us
            } else {
                u64::MAX as int
            }),
            final(self).bounds_us == old(self).bounds_us,
            forall|k: int|
                0 <= k < 9 ==> final(self).counts@[k] == (if us <= old(self).bounds_us@[k]
                    && old(self).counts@[k] < u64::MAX {
                    old(self).counts@[k] + 1
                } else {
                    old(self).counts@[k] as int
                }),
    {
        let mut counts = self.counts;
        let mut i: usize = 0;
        while i < 9
            invariant
                i <= 9,
                self.bounds_us == old(self).bounds_us,
                self.counts == old(self).counts,
                forall|k: int|
                    0 <= k < i ==> counts@[k] == (if us <= self.bounds_us@[k]
                        && self.counts@[k] < u64::MAX {
                        self.counts@[k] + 1
                    } else {
                        self.counts@[k] as int
                    }),
                forall|k: int| i <= k < 9 ==> counts@[k] == self.counts@[k],
            decreases 9 - i,
        {
            if us <= self.bounds_us[i] {
                if counts[i] < u64::MAX {
                    counts[i] = counts[i] + 1;
                }
            }
            i += 1;
        }
        self.counts = counts;
        self.total_count = if self.total_count < u64::MAX {
            self.total_count + 1
        } else {
            self.total_count
        };
        self.sum_us = if self.sum_us <= u64::MAX - us {
            self.sum_us + us
        } else {
            u64::MAX
        };
    }
}

impl Default for DurationHistogram {
    fn default() -> (r: DurationHistogram)
        ensures
            r.total_count == 0,
    {
        DurationHistogram::new()
    }
}

/// Metrics collector: gauges, counters and per-drone readings.
pub struct MetricsCollector {
    pub drone_count: i64,
    pub mission_active: bool,
    pub cv_tracks_active: i64,
    pub cv_frames_processed: u64,
    pub cv_detections_total: u64,
    pub ws_connections: i64,
    pub ws_messages_sent: u64,
    pub ws_messages_received: u64,
    pub db_connected: bool,
    pub drones: Vec<DroneGauges>,
    pub waypoints_reached: Vec<LabelledCount>,
    pub db_queries: Vec<LabelledCount>,
    pub api_requests: Vec<LabelledCount>,
    /// Frame processing latency.
    pub cv_processing: DurationHistogram,
    /// Store query latency.
    pub db_query_duration: DurationHistogram,
    /// Request handling latency.
    pub api_request_duration: DurationHistogram,
}

/// One exposition line: the metric name, a space, the value, a newline.
pub open spec fn spec_gauge_line(name: Seq<char>, value: int) -> Seq<char> {
    name + seq![' '] + dec_seq_int(value) + seq!['\n']
}

/// The scalar section of the exposition, in a fixed order.
pub open spec fn spec_scalar_section(m: MetricsCollector) -> Seq<char> {
    spec_gauge_line("drone_convoy_drones_total"@, m.drone_count as int) + spec_gauge_line(
        "drone_convoy_mission_active"@,
        if m.mission_active {
            1int
        } else {
            0int
        },
    ) + spec_gauge_line("drone_convoy_cv_tracks_active"@, m.cv_tracks_active as int)
        + spec_gauge_line("drone_convoy_cv_frames_processed_total"@, m.cv_frames_processed as int)
        + spec_gauge_line("drone_convoy_cv_detections_total"@, m.cv_detections_total as int)
        + spec_gauge_line("drone_convoy_ws_connections"@, m.ws_connections as int)
        + spec_gauge_line("drone_convoy_ws_messages_sent_total"@, m.ws_messages_sent as int)
        + spec_gauge_line("drone_convoy_ws_messages_received_total"@, m.ws_messages_received as int)
        + spec_gauge_line("drone_convoy_db_connected"@, if m.db_connected {
        1int
    } else {
        0int
    })
}

impl MetricsCollector {
    pub fn new() -> (r: MetricsCollector)
        ensures
            r.drone_count == 0,
            r.ws_connections == 0,
            !r.mission_active,
            !r.db_connected,
            r.drones@.len() == 0,
    {
        MetricsCollector {
            drone_count: 0,
            mission_active: false,
            cv_tracks_active: 0,
            cv_frames_processed: 0,
            cv_detections_total: 0,
            ws_connections: 0,
            ws_messages_sent: 0,
            ws_messages_received: 0,
            db_connected: false,
            drones: Vec::new(),
            waypoints_reached: Vec::new(),
            db_queries: Vec::new(),
            api_requests: Vec::new(),
            cv_processing: DurationHistogram::new(),
            db_query_duration: DurationHistogram::new(),
            api_request_duration: DurationHistogram::new(),
        }
    }

    pub fn set_drone_count(&mut self, count: i64)
        ensures
            final(self).drone_count == count,
            final(self).drones == old(self).drones,
    {
        self.drone_count = count;
    }

    pub fn set_mission_active(&mut self, active: bool)
        ensures
            final(self).mission_active == active,
    {
        self.mission_active = active;
    }

    pub fn set_cv_tracks(&mut self, count: i64)
        ensures
            final(self).cv_tracks_active == count,
    {
        self.cv_tracks_active = count;
    }

    /// Records one processed frame: the frame counter rises by one, the
    /// detection total by the frame's detections, and the processing
    /// histogram takes the duration.
    pub fn record_cv_frame(&mut self, detections: u64, processing_us: u64)
        ensures
            final(self).cv_frames_processed == (if old(self).cv_frames_processed < u64::MAX {
                old(self).cv_frames_processed + 1
            } else {
                old(self).cv_frames_processed as int
            }),
            final(self).cv_detections_total == (if old(self).cv_detections_total <= u64::MAX
                - detections {
                old(self).cv_detections_total + detections
            } else {
                u64::MAX as int
            }),
            final(self).cv_processing.total_count == (if old(self).cv_processing.total_count
                < u64::MAX {
                old(self).cv_processing.total_count + 1
            } else {
                old(self).cv_processing.total_count as int
            }),
            final(self).cv_processing.sum_us == (if old(self).cv_processing.sum_us <= u64::MAX
                - processing_us {
                old(self).cv_processing.sum_us + processing_us
            } else {
                u64::MAX as int
            }),
    {
        self.cv_frames_processed = if self.cv_frames_processed < u64::MAX {
            self.cv_frames_processed + 1
        } else {
            self.cv_frames_processed
        };
        self.cv_detections_total = if self.cv_detections_total <= u64::MAX - detections {
            self.cv_detections_total + detections
        } else {
            u64::MAX
        };
        self.cv_processing.observe_us(processing_us);
    }

    pub fn set_ws_connections(&mut self, count: i64)
        ensures
            final(self).ws_connections == count,
    {
        self.ws_connections = count;
    }

    /// Counts one outbound message: the counter rises by exactly one.
    pub fn record_ws_sent(&mut self)
        ensures
            final(self).ws_messages_sent == (if old(self).ws_messages_sent < u64::MAX {
                old(self).ws_messages_sent + 1
            } else {
                old(self).ws_messages_sent as int
            }),
            final(self).ws_messages_received == old(self).ws_messages_received,
    {
        self.ws_messages_sent = if self.ws_messages_sent < u64::MAX {
            self.ws_messages_sent + 1
        } else {
            self.ws_messages_sent
        };
    }

    /// Counts one inbound message: the counter rises by exactly one.
    pub fn record_ws_received(&mut self)
        ensures
            final(self).ws_messages_received == (if old(self).ws_messages_received < u64::MAX {
                old(self).ws_messages_received + 1
            } else {
                old(self).ws_messages_received as int
            }),
            final(self).ws_messages_sent == old(self).ws_messages_sent,
    {
        self.ws_messages_received = if self.ws_messages_received < u64::MAX {
            self.ws_messages_received + 1
        } else {
            self.ws_messages_received
        };
    }

    pub fn set_db_connected(&mut self, connected: bool)
        ensures
            final(self).db_connected == connected,
    {
        self.db_connected = connected;
    }

    /// Replaces one drone's gauge readings, keyed by id.
    pub fn update_drone(&mut self, drone: &crate::domain::Drone)
        ensures
            exists|i: int|
                0 <= i < final(self).drones@.len() && (#[trigger] final(self).drones@[i]).drone_id@
                    == drone.id.0@ && final(self).drones@[i].battery
                    == drone.telemetry.battery_level && final(self).drones@[i].fuel
                    == drone.telemetry.fuel_level,
    {
        let g = DroneGauges {
            drone_id: drone.id.0.clone(),
            battery: drone.telemetry.battery_level,
            fuel: drone.telemetry.fuel_level,
            speed_ckmh: drone.telemetry.speed_ckmh,
            alt_mm: drone.position.alt_mm,
        };
        let n: usize = self.drones.len();
        let mut i: usize = 0;
        let mut at: Option<usize> = None;
        while i < n
            invariant
                i <= n,
                n == self.drones@.len(),
                at matches Some(k) ==> (k as int) < n,
            decreases n - i,
        {
            if at.is_none() && self.drones[i].drone_id == drone.id.0 {
                at = Some(i);
            }
            i += 1;
        }
        match at {
            Some(k) => {
                let slot = &mut self.drones[k];
                *slot = g;
                proof {
                    assert(self.drones@[k as int].drone_id@ == drone.id.0@);
                    assert(exists|q: int|
                        0 <= q < self.drones@.len() && (#[trigger] self.drones@[q]).drone_id@
                            == drone.id.0@ && self.drones@[q].battery
                            == drone.telemetry.battery_level && self.drones@[q].fuel
                            == drone.telemetry.fuel_level);
                }
            },
            None => {
                self.drones.push(g);
                proof {
                    let m = self.drones@.len() - 1;
                    assert(self.drones@[m].drone_id@ == drone.id.0@);
                    assert(exists|q: int|
                        0 <= q < self.drones@.len() && (#[trigger] self.drones@[q]).drone_id@
                            == drone.id.0@ && self.drones@[q].battery
                            == drone.telemetry.battery_level && self.drones@[q].fuel
                            == drone.telemetry.fuel_level);
                }
            },
        }
    }

    /// Counts a waypoint arrival: the counter labelled
    /// `drone_id/waypoint` rises by exactly one.
    pub fn record_waypoint_reached(&mut self, drone_id: &str, waypoint: &str)
        ensures
            labelled_bumped(
                old(self).waypoints_reached@,
                final(self).waypoints_reached@,
                drone_id@ + "/"@ + waypoint@,
            ),
    {
        let mut key: String = drone_id.to_owned();
        proof {
            reveal_strlit("/");
        }
        key.append("/");
        key.append(waypoint);
        proof {
            assert(key@ =~= drone_id@ + "/"@ + waypoint@);
        }
        bump_labelled(&mut self.waypoints_reached, key);
    }

    /// Counts a database query: the counter labelled `table/operation`
    /// rises by exactly one, and the query histogram takes the duration.
    pub fn record_db_query(&mut self, table: &str, operation: &str, duration_us: u64)
        ensures
            labelled_bumped(
                old(self).db_queries@,
                final(self).db_queries@,
                table@ + "/"@ + operation@,
            ),
            final(self).db_query_duration.total_count == (if old(
                self,
            ).db_query_duration.total_count < u64::MAX {
                old(self).db_query_duration.total_count + 1
            } else {
                old(self).db_query_duration.total_count as int
            }),
    {
        let mut key: String = table.to_owned();
        proof {
            reveal_strlit("/");
        }
        key.append("/");
        key.append(operation);
        proof {
            assert(key@ =~= table@ + "/"@ + operation@);
        }
        bump_labelled(&mut self.db_queries, key);
        self.db_query_duration.observe_us(duration_us);
    }

    /// Counts an API request: the counter labelled `method path` rises
    /// by exactly one, and the request histogram takes the duration.
    pub fn record_api_request(&mut self, method: &str, path: &str, duration_us: u64)
        ensures
            labelled_bumped(
                old(self).api_requests@,
                final(self).api_requests@,
                method@ + " "@ + path@,
            ),
            final(self).api_request_duration.total_count == (if old(
                self,
            ).api_request_duration.total_count < u64::MAX {
                old(self).api_request_duration.total_count + 1
            } else {
                old(self).api_request_duration.total_count as int
            }),
    {
        let mut key: String = method.to_owned();
        proof {
            reveal_strlit(" ");
        }
        key.append(" ");
        key.append(path);
        proof {
            assert(key@ =~= method@ + " "@ + path@);
        }
        bump_labelled(&mut self.api_requests, key);
        self.api_request_duration.observe_us(duration_us);
    }

    /// The plain-text exposition: the scalar gauges in a fixed order,
    /// then per-drone and per-label lines.
    #[verifier::rlimit(100)]
    pub fn export(&self) -> (s: String)
        ensures
            s@.len() >= spec_scalar_section(*self).len(),
            s@.subrange(0, spec_scalar_section(*self).len() as int) == spec_scalar_section(*self),
    {
        proof {
            reveal_strlit("drone_convoy_drones_total");
            reveal_strlit("drone_convoy_mission_active");
            reveal_strlit("drone_convoy_cv_tracks_active");
            reveal_strlit("drone_convoy_cv_frames_processed_total");
            reveal_strlit("drone_convoy_cv_detections_total");
            reveal_strlit("drone_convoy_ws_connections");
            reveal_strlit("drone_convoy_ws_messages_sent_total");
            reveal_strlit("drone_convoy_ws_messages_received_total");
            reveal_strlit("drone_convoy_db_connected");
        }
        let mut s: String = String::new();
        append_gauge_line(&mut s, "drone_convoy_drones_total", fmt_i64(self.drone_count));
        append_gauge_line(
            &mut s,
            "drone_convoy_mission_active",
            fmt_i64(
                if self.mission_active {
                    1
                } else {
                    0
                },
            ),
        );
        append_gauge_line(&mut s, "drone_convoy_cv_tracks_active", fmt_i64(self.cv_tracks_active));
        append_gauge_line(
            &mut s,
            "drone_convoy_cv_frames_processed_total",
            fmt_u64(self.cv_frames_processed),
        );
        append_gauge_line(
            &mut s,
            "drone_convoy_cv_detections_total",
            fmt_u64(self.cv_detections_total),
        );
        append_gauge_line(&mut s, "drone_convoy_ws_connections", fmt_i64(self.ws_connections));
        append_gauge_line(
            &mut s,
            "drone_convoy_ws_messages_sent_total",
            fmt_u64(self.ws_messages_sent),
        );
        append_gauge_line(
            &mut s,
            "drone_convoy_ws_messages_received_total",
            fmt_u64(self.ws_messages_received),
        );
        append_gauge_line(
            &mut s,
            "drone_convoy_db_connected",
            fmt_i64(
                if self.db_connected {
                    1
                } else {
                    0
                },
            ),
        );
        proof {
            assert(s@ =~= spec_scalar_section(*self));
        }
        // Per-drone gauges and labelled counters follow the scalars.
        let nd: usize = self.drones.len();
        let mut i: usize = 0;
        while i < nd
            invariant
                i <= nd,
                nd == self.drones@.len(),
                s@.len() >= spec_scalar_section(*self).len(),
                s@.subrange(0, spec_scalar_section(*self).len() as int) == spec_scalar_section(
                    *self,
                ),
            decreases nd - i,
        {
            let ghost pre = s@;
            let d = &self.drones[i];
            proof {
                reveal_strlit("drone_convoy_drone_battery_percent{drone_id=");
                reveal_strlit("drone_convoy_drone_fuel_percent{drone_id=");
                reveal_strlit("} ");
                reveal_strlit("\n");
            }
            s.append("drone_convoy_drone_battery_percent{drone_id=");
            s.append(d.drone_id.as_str());
            s.append("} ");
            s.append(fmt_u64(d.battery as u64).as_str());
            s.append("\n");
            s.append("drone_convoy_drone_fuel_percent{drone_id=");
            s.append(d.drone_id.as_str());
            s.append("} ");
            s.append(fmt_u64(d.fuel as u64).as_str());
            s.append("\n");
            s.append("drone_convoy_drone_speed_ckmh{drone_id=");
            s.append(d.drone_id.as_str());
            s.append("} ");
            s.append(fmt_u64(d.speed_ckmh as u64).as_str());
            s.append("\n");
            s.append("drone_convoy_drone_altitude_mm{drone_id=");
            s.append(d.drone_id.as_str());
            s.append("} ");
            s.append(fmt_i64(d.alt_mm).as_str());
            s.append("\n");
            proof {
                assert(s@.subrange(0, spec_scalar_section(*self).len() as int) =~= pre.subrange(
                    0,
                    spec_scalar_section(*self).len() as int,
                ));
            }
            i += 1;
        }
        let ghost scalar_len = spec_scalar_section(*self).len() as int;
        append_labelled_lines(&mut s, "drone_convoy_waypoints_reached_total", &self.waypoints_reached);
        append_labelled_lines(&mut s, "drone_convoy_db_queries_total", &self.db_queries);
        append_labelled_lines(&mut s, "drone_convoy_api_requests_total", &self.api_requests);
        append_histogram_lines(&mut s, "drone_convoy_cv_processing_seconds", &self.cv_processing);
        append_histogram_lines(&mut s, "drone_convoy_db_query_seconds", &self.db_query_duration);
        append_histogram_lines(
            &mut s,
            "drone_convoy_api_request_seconds",
            &self.api_request_duration,
        );
        proof {
            assert(s@.subrange(0, scalar_len) =~= spec_scalar_section(*self));
        }
        s
    }
}

/// Appends one exposition line per labelled counter:
/// `name{label=<label>} <value>`.
fn append_labelled_lines(s: &mut String, name: &str, v: &Vec<LabelledCount>)
    ensures
        final(s)@.len() >= old(s)@.len(),
        final(s)@.subrange(0, old(s)@.len() as int) == old(s)@,
{
    let ghost base = s@;
    let n: usize = v.len();
    let mut i: usize = 0;
    while i < n
        invariant
            i <= n,
            n == v@.len(),
            s@.len() >= base.len(),
            s@.subrange(0, base.len() as int) == base,
        decreases n - i,
    {
        let ghost pre = s@;
        proof {
            reveal_strlit("{label=");
            reveal_strlit("} ");
            reveal_strlit("\n");
        }
        s.append(name);
        s.append("{label=");
        s.append(v[i].label.as_str());
        s.append("} ");
        s.append(fmt_u64(v[i].value).as_str());
        s.append("\n");
        proof {
            assert(s@.subrange(0, base.len() as int) =~= pre.subrange(0, base.len() as int));
        }
        i += 1;
    }
}

/// Appends the exposition of one histogram: a cumulative line per bucket
/// bound, then the sum and the count.
fn append_histogram_lines(s: &mut String, name: &str, h: &DurationHistogram)
    ensures
        final(s)@.len() >= old(s)@.len(),
        final(s)@.subrange(0, old(s)@.len() as int) == old(s)@,
{
    let ghost base = s@;
    let mut i: usize = 0;
    while i < 9
        invariant
            i <= 9,
            s@.len() >= base.len(),
            s@.subrange(0, base.len() as int) == base,
        decreases 9 - i,
    {
        let ghost pre = s@;
        proof {
            reveal_strlit("_bucket{le_us=");
            reveal_strlit("} ");
            reveal_strlit("\n");
        }
        s.append(name);
        s.append("_bucket{le_us=");
        s.append(fmt_u64(h.bounds_us[i]).as_str());
        s.append("} ");
        s.append(fmt_u64(h.counts[i]).as_str());
        s.append("\n");
        proof {
            assert(s@.subrange(0, base.len() as int) =~= pre.subrange(0, base.len() as int));
        }
        i += 1;
    }
    let ghost pre = s@;
    proof {
        reveal_strlit("_sum_us ");
        reveal_strlit("_count ");
        reveal_strlit("\n");
    }
    s.append(name);
    s.append("_sum_us ");
    s.append(fmt_u64(h.sum_us).as_str());
    s.append("\n");
    s.append(name);
    s.append("_count ");
    s.append(fmt_u64(h.total_count).as_str());
    s.append("\n");
    proof {
        assert(s@.subrange(0, base.len() as int) =~= pre.subrange(0, base.len() as int));
    }
}

impl Default for MetricsCollector {
    fn default() -> (r: MetricsCollector)
        ensures
            r.drone_count == 0,
    {
        MetricsCollector::new()
    }
}

/// Appends `name value\n`.
fn append_gauge_line(s: &mut String, name: &str, value: String)
    ensures
        final(s)@ == old(s)@ + name@ + seq![' '] + value@ + seq!['\n'],
{
    proof {
        reveal_strlit(" ");
        reveal_strlit("\n");
    }
    s.append(name);
    s.append(" ");
    s.append(value.as_str());
    s.append("\n");
    proof {
        assert(s@ =~= old(s)@ + name@ + seq![' '] + value@ + seq!['\n']);
    }
}

/// The index of the first counter with the given label.
pub open spec fn find_label(s: Seq<LabelledCount>, key: Seq<char>, k: int) -> Option<int>
    decreases s.len() - k,
{
    if k < 0 || k >= s.len() {
        None
    } else if s[k].label@ == key {
        Some(k)
    } else {
        find_label(s, key, k + 1)
    }
}

/// The labelled counters after one bump of `key`: a known label's value
/// rises by one (saturating), an unknown label is appended at one, and
/// every other entry stays.
pub open spec fn labelled_bumped(
    oldv: Seq<LabelledCount>,
    newv: Seq<LabelledCount>,
    key: Seq<char>,
) -> bool {
    match find_label(oldv, key, 0) {
        Option::<int>::Some(k) => {
            &&& newv.len() == oldv.len()
            &&& (forall|q: int| 0 <= q < oldv.len() && q != k ==> newv[q] == oldv[q])
            &&& newv[k].label@ == oldv[k].label@
            &&& newv[k].value == (if oldv[k].value < u64::MAX {
                oldv[k].value + 1
            } else {
                oldv[k].value as int
            })
        },
        Option::<int>::None => {
            &&& newv.len() == oldv.len() + 1
            &&& (forall|q: int| 0 <= q < oldv.len() ==> newv[q] == oldv[q])
            &&& newv.last().label@ == key
            &&& newv.last().value == 1
        },
    }
}

/// Raises a labelled counter by one, inserting the label when new.
fn bump_labelled(v: &mut Vec<LabelledCount>, key: String)
    ensures
        labelled_bumped(old(v)@, final(v)@, key@),
{
    let n: usize = v.len();
    let mut i: usize = 0;
    let mut at: Option<usize> = None;
    while i < n
        invariant
            i <= n,
            n == v@.len(),
            *v == *old(v),
            at matches Some(k) ==> find_label(v@, key@, 0) == Some(k as int) && (k as int) < n,
            at is None ==> find_label(v@, key@, 0) == find_label(v@, key@, i as int),
        decreases n - i,
    {
        if at.is_none() && v[i].label == key {
            proof {
                assert(find_label(v@, key@, i as int) == Some(i as int));
            }
            at = Some(i);
        } else {
            proof {
                if at is None {
                    assert(find_label(v@, key@, i as int) == find_label(v@, key@, i + 1));
                }
            }
        }
        i += 1;
    }
    proof {
        if at is None {
            assert(find_label(v@, key@, n as int) is None);
        }
    }
    match at {
        Some(k) => {
            let ghost pre = v@;
            let cur: u64 = v[k].count_value();
            let slot = &mut v[k];
            slot.value = if cur < u64::MAX {
                cur + 1
            } else {
                cur
            };
            proof {
                assert(forall|q: int| 0 <= q < pre.len() && q != k as int ==> v@[q] == pre[q]);
            }
        },
        None => {
            v.push(LabelledCount { label: key, value: 1 });
        },
    }
}

impl LabelledCount {
    fn count_value(&self) -> (r: u64)
        ensures
            r == self.value,
    {
        self.value
    }
}

} // verus!
