//! Multi-object visual tracker: detection-to-track association by circle
//! overlap, per-track Kalman smoothing, and a confirm/retire lifecycle.
//!
//! Association is greedy over an ordered cost matrix: the least finite cost
//! is committed first, ties broken by the lower track index and then the
//! lower detection index, so the outcome depends only on the given order
//! of tracks and detections.

use vstd::prelude::*;
use crate::cvconfig::CvConfig;
use crate::cverror::CvError;
use crate::domain::{DetectedHalo, DroneId};
use crate::geo::GeoPos;
use crate::kalman::{KalmanTracker, KSCALE};
use crate::trig::{archav, isqrt, SCALE};

verus! {

/// Overlap scale: an overlap ratio of one is `PPM`.
pub const PPM: u32 = 1_000_000;

/// The cost of a forbidden pairing.
pub const COST_INF: u64 = 18_446_744_073_709_551_615;

/// Intersection-over-union of two discs, in parts per million.
///
/// Zero for separated discs; for nested discs the ratio of the areas;
/// otherwise the lens intersection area over the union area.
pub fn circle_iou_ppm(x1: i32, y1: i32, r1: i32, x2: i32, y2: i32, r2: i32) -> (iou: u32)
    requires
        -1_000_000 <= x1 <= 1_000_000,
        -1_000_000 <= y1 <= 1_000_000,
        0 <= r1 <= 1_000_000,
        -1_000_000 <= x2 <= 1_000_000,
        -1_000_000 <= y2 <= 1_000_000,
        0 <= r2 <= 1_000_000,
    ensures
        iou <= PPM,
        (x2 - x1) * (x2 - x1) + (y2 - y1) * (y2 - y1) >= (r1 + r2) * (r1 + r2) ==> iou == 0,
        (x1 == x2 && y1 == y2 && r1 == r2 && r1 > 0) ==> iou == PPM,
{
    let dx: i64 = (x2 - x1) as i64;
    let dy: i64 = (y2 - y1) as i64;
    proof {
        assert(0 <= dx * dx <= 4_000_000_000_000int && 0 <= dy * dy <= 4_000_000_000_000int)
            by (nonlinear_arith)
            requires
                -2_000_000 <= dx as int <= 2_000_000,
                -2_000_000 <= dy as int <= 2_000_000,
        ;
    }
    let d2: i64 = dx * dx + dy * dy;
    let sum: i64 = (r1 + r2) as i64;
    proof {
        assert(0 <= sum * sum <= 4_000_000_000_000int) by (nonlinear_arith)
            requires
                0 <= sum as int <= 2_000_000,
        ;
        if x1 == x2 && y1 == y2 && r1 == r2 && r1 > 0 {
            assert((dx as int) * (dx as int) == 0 && (dy as int) * (dy as int) == 0)
                by (nonlinear_arith)
                requires
                    dx as int == 0,
                    dy as int == 0,
            ;
            assert((sum as int) * (sum as int) >= 4) by (nonlinear_arith)
                requires
                    sum as int >= 2,
            ;
        }
    }
    if d2 >= sum * sum {
        return 0;
    }
    let diff: i64 = if r1 >= r2 {
        (r1 - r2) as i64
    } else {
        (r2 - r1) as i64
    };
    proof {
        assert(0 <= diff * diff <= 1_000_000_000_000int) by (nonlinear_arith)
            requires
                0 <= diff as int <= 1_000_000,
        ;
    }
    if d2 <= diff * diff {
        // One disc contains the other.
        let rmin: i64 = if r1 <= r2 {
            r1 as i64
        } else {
            r2 as i64
        };
        let rmax: i64 = if r1 <= r2 {
            r2 as i64
        } else {
            r1 as i64
        };
        if rmax == 0 {
            return 0;
        }
        proof {
            assert(rmin * rmin * 1_000_000 / (rmax * rmax) <= 1_000_000 && 0 <= rmin * rmin
                * 1_000_000 / (rmax * rmax) && (rmin == rmax ==> rmin * rmin * 1_000_000 / (rmax
                * rmax) == 1_000_000) && rmin * rmin * 1_000_000
                <= 1_000_000_000_000_000_000int && rmax * rmax >= 1) by (nonlinear_arith)
                requires
                    0 <= rmin <= rmax,
                    1 <= rmax <= 1_000_000i64,
            ;
            assert(0 <= (rmin as int) * (rmin as int) <= 1_000_000_000_000int && 1 <= (
            rmax as int) * (rmax as int) <= 1_000_000_000_000int) by (nonlinear_arith)
                requires
                    0 <= rmin as int <= 1_000_000,
                    1 <= rmax as int <= 1_000_000,
            ;
        }
        let ratio: i64 = ((rmin as i128) * (rmin as i128) * 1_000_000 / ((rmax as i128) * (
        rmax as i128))) as i64;
        return ratio as u32;
    }
    if r1 == 0 || r2 == 0 {
        return 0;
    }
    // Lens intersection, at a pixel scale of 1000.
    let d2s: i128 = (d2 as i128) * 1_000_000;
    let ds: i128 = isqrt(d2s as u128) as i128;
    proof {
        assert(ds >= 1) by (nonlinear_arith)
            requires
                d2s >= 1_000_000,
                ds >= 0,
                (d2s as int) < (ds + 1) * (ds + 1),
        ;
    }
    let r1s: i128 = (r1 as i128) * 1000;
    let r2s: i128 = (r2 as i128) * 1000;
    proof {
        assert(1 <= d2 <= 8_000_000_000_000i64);
    }
    // ds * ds <= d2s <= 8e18, so ds <= 3e9; r1s, r2s <= 1e9.
    proof {
        assert(ds * ds <= d2s ==> ds <= 3_000_000_000i128) by (nonlinear_arith)
            requires
                0 <= ds,
                d2s <= 8_000_000_000_000_000_000i128,
        ;
    }
    let q1: i64 = lens_cos(d2s, r1s, r2s, ds);
    let q2: i64 = lens_cos(d2s, r2s, r1s, ds);
    let ac1: i64 = acos_q(q1);
    let ac2: i64 = acos_q(q2);
    proof {
        assert((r1 as i128) * (r1 as i128) <= 1_000_000_000_000i128 && 0 <= (r1 as i128) * (
        r1 as i128)) by (nonlinear_arith)
            requires
                0 <= r1 as i128 <= 1_000_000i128,
        ;
        assert((r2 as i128) * (r2 as i128) <= 1_000_000_000_000i128 && 0 <= (r2 as i128) * (
        r2 as i128)) by (nonlinear_arith)
            requires
                0 <= r2 as i128 <= 1_000_000i128,
        ;
    }
    let r1sq: i128 = (r1 as i128) * (r1 as i128);
    let r2sq: i128 = (r2 as i128) * (r2 as i128);
    proof {
        assert(0 <= r1sq * (ac1 as i128) <= 4_000_000_000_000_000_000_000i128) by (nonlinear_arith)
            requires
                0 <= r1sq <= 1_000_000_000_000i128,
                0 <= ac1 as i128 <= 3_200_000_000i128,
        ;
        assert(0 <= r2sq * (ac2 as i128) <= 4_000_000_000_000_000_000_000i128) by (nonlinear_arith)
            requires
                0 <= r2sq <= 1_000_000_000_000i128,
                0 <= ac2 as i128 <= 3_200_000_000i128,
        ;
    }
    let part1: i128 = r1sq * (ac1 as i128) / 1000;
    let part2: i128 = r2sq * (ac2 as i128) / 1000;
    let t1: i128 = max0(sum as i128 * 1000 - ds);
    let t2: i128 = max0(ds + r1s - r2s);
    let t3: i128 = max0(ds - r1s + r2s);
    let t4: i128 = ds + r1s + r2s;
    proof {
        assert(0 <= t1 * t2 <= 32_000_000_000_000_000_000i128) by (nonlinear_arith)
            requires
                0 <= t1 <= 4_000_000_000i128,
                0 <= t2 <= 8_000_000_000i128,
        ;
        assert(0 <= t3 * t4 <= 64_000_000_000_000_000_000i128) by (nonlinear_arith)
            requires
                0 <= t3 <= 8_000_000_000i128,
                0 <= t4 <= 8_000_000_000i128,
        ;
    }
    let t12: i128 = t1 * t2 / 1_000_000;
    let t34: i128 = t3 * t4 / 1_000_000;
    proof {
        assert(0 <= t12 * t34 <= 2_048_000_000_000_000_000_000_000_000i128) by (nonlinear_arith)
            requires
                0 <= t12 <= 32_000_000_000_000i128,
                0 <= t34 <= 64_000_000_000_000i128,
        ;
    }
    let root: i128 = isqrt((t12 * t34) as u128) as i128;
    proof {
        assert(root * root <= t12 * t34 ==> root <= 46_000_000_000_000i128) by (nonlinear_arith)
            requires
                0 <= root,
                t12 * t34 <= 2_048_000_000_000_000_000_000_000_000i128,
        ;
    }
    let part3: i128 = root * 1_000_000 / 2;
    let inter: i128 = max0(part1 + part2 - part3);
    let union_area: i128 = 3_141_593i128 * (r1sq + r2sq) - inter;
    if union_area <= 0 {
        return 0;
    }
    proof {
        assert(0 <= (inter as int) * 1_000_000 <= 400_000_000_000_000_000_000_000_000int
            && 0 <= (inter as int) * 1_000_000 / (union_area as int)) by (nonlinear_arith)
            requires
                0 <= inter as int <= 400_000_000_000_000_000_000int,
                1 <= union_area as int,
        ;
    }
    let ratio: i128 = inter * 1_000_000 / union_area;
    let capped: i128 = if ratio > 1_000_000 {
        1_000_000
    } else {
        ratio
    };
    capped as u32
}

fn max0(v: i128) -> (r: i128)
    requires
        -400_000_000_000_000_000_000_000_000_000i128 <= v
            <= 400_000_000_000_000_000_000_000_000_000i128,
    ensures
        r == (if v >= 0 {
            v as int
        } else {
            0int
        }),
        r >= 0,
        r <= (if v >= 0 {
            v as int
        } else {
            0int
        }),
{
    if v >= 0 {
        v
    } else {
        0
    }
}

/// The cosine of the half-lens angle at circle `a`:
/// `(d^2 + ra^2 - rb^2) / (2 d ra)`, scaled by `SCALE` and clamped.
fn lens_cos(d2s: i128, ras: i128, rbs: i128, ds: i128) -> (q: i64)
    requires
        1 <= d2s <= 8_000_000_000_000_000_000i128,
        1000 <= ras <= 1_000_000_000i128,
        1000 <= rbs <= 1_000_000_000i128,
        1 <= ds <= 3_000_000_000i128,
    ensures
        -1_000_000_000 <= q <= 1_000_000_000,
{
    proof {
        assert(0 <= ras * ras <= 1_000_000_000_000_000_000i128) by (nonlinear_arith)
            requires
                0 <= ras <= 1_000_000_000i128,
        ;
        assert(0 <= rbs * rbs <= 1_000_000_000_000_000_000i128) by (nonlinear_arith)
            requires
                0 <= rbs <= 1_000_000_000i128,
        ;
        assert(0 <= 2 * ds * ras <= 6_000_000_000_000_000_000i128 && 2 * ds * ras >= 2000i128)
            by (nonlinear_arith)
            requires
                1 <= ds <= 3_000_000_000i128,
                1000 <= ras <= 1_000_000_000i128,
        ;
    }
    let num: i128 = d2s + ras * ras - rbs * rbs;
    let den: i128 = 2 * ds * ras;
    let nm: i128 = if num >= 0 {
        num
    } else {
        -num
    };
    proof {
        assert(0 <= nm * 1_000_000_000 <= 10_000_000_000_000_000_000_000_000_000i128)
            by (nonlinear_arith)
            requires
                0 <= nm <= 10_000_000_000_000_000_000i128,
        ;
    }
    let mag: i128 = nm * (SCALE as i128) / den;
    let mag_c: i128 = if mag > SCALE as i128 {
        SCALE as i128
    } else {
        mag
    };
    if num < 0 {
        -(mag_c as i64)
    } else {
        mag_c as i64
    }
}

/// Arc cosine in nanoradians of a `SCALE`-scaled cosine, via the identity
/// `hav(t) = (1 - cos t) / 2`.
fn acos_q(q: i64) -> (r: i64)
    requires
        -1_000_000_000 <= q <= 1_000_000_000,
    ensures
        0 <= r <= 3_141_592_654,
{
    let av: u64 = ((SCALE as i64 - q) / 2) as u64;
    let av_c: u64 = if av > SCALE {
        SCALE
    } else {
        av
    };
    archav(av_c) as i64
}

/// Internal state of one visual track.
#[derive(Clone, Debug)]
pub struct TrackState {
    pub tracking_id: u32,
    pub kalman: KalmanTracker,
    pub last_detection: DetectedHalo,
    pub frames_since_detection: u32,
    pub consecutive_detections: u32,
    pub confidence_ppm: u32,
    pub confirmed: bool,
}

/// A confirmed track as exported to consumers.
#[derive(Clone, Debug)]
pub struct ActiveTrack {
    pub tracking_id: u32,
    pub drone_id: Option<DroneId>,
    pub kalman: KalmanTracker,
    pub last_detection: DetectedHalo,
    pub frames_since_seen: u32,
    pub confidence_ppm: u32,
    pub estimated_position: Option<GeoPos>,
}

/// Whether a track is exported: confirmed and seen more recently than the
/// retirement horizon.
pub open spec fn exported(t: TrackState, max_skip: int) -> bool {
    t.confirmed && (t.frames_since_detection as int) < max_skip
}

/// The `k`-th exported record carries the state of some exported track
/// among the first `n`.
pub open spec fn carr_at(
    out: Seq<ActiveTrack>,
    ts: Seq<TrackState>,
    n: int,
    max_skip: int,
    k: int,
) -> bool {
    exists|j: int| 0 <= j < n && exported(#[trigger] ts[j], max_skip) && carries(out[k], ts[j])
}

/// Whether an exported record carries a track's state: its id, its last
/// detection, its filter and its freshness, with no position estimate.
pub open spec fn carries(a: ActiveTrack, t: TrackState) -> bool {
    &&& a.tracking_id == t.tracking_id
    &&& a.kalman == t.kalman
    &&& a.last_detection == t.last_detection
    &&& a.frames_since_seen == t.frames_since_detection
    &&& a.confidence_ppm == t.confidence_ppm
    &&& a.estimated_position is None
}

/// The number of exported tracks in a sequence.
pub open spec fn count_exported(ts: Seq<TrackState>, max_skip: int) -> int
    decreases ts.len(),
{
    if ts.len() == 0 {
        0
    } else {
        count_exported(ts.drop_last(), max_skip) + (if exported(ts.last(), max_skip) {
            1int
        } else {
            0int
        })
    }
}

/// The number of confirmed tracks in a sequence.
pub open spec fn count_confirmed(ts: Seq<TrackState>) -> int
    decreases ts.len(),
{
    if ts.len() == 0 {
        0
    } else {
        count_confirmed(ts.drop_last()) + (if ts.last().confirmed {
            1int
        } else {
            0int
        })
    }
}

/// A track one empty frame later: the gap one frame longer (saturating)
/// and the detection streak broken; everything else stays.
pub open spec fn aged_from(a: TrackState, t: TrackState) -> bool {
    &&& a.tracking_id == t.tracking_id
    &&& a.last_detection == t.last_detection
    &&& a.confidence_ppm == t.confidence_ppm
    &&& a.confirmed == t.confirmed
    &&& a.consecutive_detections == 0
    &&& a.frames_since_detection as int == (if t.frames_since_detection < u32::MAX {
        t.frames_since_detection + 1
    } else {
        t.frames_since_detection as int
    })
}

/// The gap of a track after one empty frame, saturating.
pub open spec fn aged_gap(t: TrackState) -> int {
    if t.frames_since_detection < u32::MAX {
        t.frames_since_detection + 1
    } else {
        t.frames_since_detection as int
    }
}

/// How many tracks survive one empty frame: those whose aged gap stays
/// within the retirement horizon.
pub open spec fn count_aged_survivors(ts: Seq<TrackState>, max_skip: int) -> int
    decreases ts.len(),
{
    if ts.len() == 0 {
        0
    } else {
        count_aged_survivors(ts.drop_last(), max_skip) + (if aged_gap(ts.last()) <= max_skip {
            1int
        } else {
            0int
        })
    }
}

/// The `k`-th track is aged from some track of the previous frame.
pub open spec fn aged_at(news: Seq<TrackState>, olds: Seq<TrackState>, k: int) -> bool {
    exists|j: int| 0 <= j < olds.len() && aged_from(news[k], #[trigger] olds[j])
}

/// Two tracks that agree on every lifecycle field.
pub open spec fn same_lifecycle(a: TrackState, t: TrackState) -> bool {
    &&& a.tracking_id == t.tracking_id
    &&& a.last_detection == t.last_detection
    &&& a.confidence_ppm == t.confidence_ppm
    &&& a.confirmed == t.confirmed
    &&& a.consecutive_detections == t.consecutive_detections
    &&& a.frames_since_detection == t.frames_since_detection
}

/// The number of tracks whose gap is within the horizon.
pub open spec fn count_gap_ok(ts: Seq<TrackState>, max_skip: int) -> int
    decreases ts.len(),
{
    if ts.len() == 0 {
        0
    } else {
        count_gap_ok(ts.drop_last(), max_skip) + (if ts.last().frames_since_detection as int
            <= max_skip {
            1int
        } else {
            0int
        })
    }
}

/// A sequence aged track for track has as many tracks within the horizon
/// as the old sequence has survivors of one empty frame.
pub proof fn lemma_count_aged(news: Seq<TrackState>, olds: Seq<TrackState>, max_skip: int)
    requires
        news.len() == olds.len(),
        forall|j: int| 0 <= j < olds.len() ==> aged_from(#[trigger] news[j], olds[j]),
    ensures
        count_gap_ok(news, max_skip) == count_aged_survivors(olds, max_skip),
    decreases news.len(),
{
    if news.len() > 0 {
        assert(forall|j: int|
            0 <= j < olds.drop_last().len() ==> aged_from(
                #[trigger] news.drop_last()[j],
                olds.drop_last()[j],
            ));
        lemma_count_aged(news.drop_last(), olds.drop_last(), max_skip);
        assert(aged_from(news.last(), olds.last()));
        assert(news.last().frames_since_detection as int == aged_gap(olds.last()));
    }
}

/// Multi-object drone tracker.
pub struct DroneTracker {
    max_frames_to_skip: u32,
    iou_threshold_ppm: u32,
    process_noise_u: i64,
    measurement_noise_u: i64,
    max_tracks: usize,
    min_frames_to_confirm: u32,
    tracks: Vec<TrackState>,
    next_id: u32,
    drone_associations: Vec<(u32, DroneId)>,
    frame_count: u64,
}

impl DroneTracker {
    /// The live tracks, in creation order.
    pub closed spec fn spec_tracks(self) -> Seq<TrackState> {
        self.tracks@
    }

    pub closed spec fn spec_max_frames_to_skip(self) -> int {
        self.max_frames_to_skip as int
    }

    pub closed spec fn spec_min_frames_to_confirm(self) -> int {
        self.min_frames_to_confirm as int
    }

    pub closed spec fn spec_max_tracks(self) -> int {
        self.max_tracks as int
    }

    pub closed spec fn spec_frame_count(self) -> int {
        self.frame_count as int
    }

    /// Every track's filter is well formed and the track count is capped.
    pub closed spec fn wf(self) -> bool {
        &&& forall|i: int| 0 <= i < self.tracks@.len() ==> (#[trigger] self.tracks@[i]).kalman.wf()
        &&& self.tracks@.len() <= self.max_tracks as int
    }

    /// A fresh tracker with no tracks.
    pub fn new(config: &CvConfig) -> (r: Result<DroneTracker, CvError>)
        ensures
            r is Ok,
            r matches Ok(t) && t.wf() && t.spec_tracks().len() == 0 && t.spec_frame_count() == 0
                && t.spec_max_frames_to_skip() == config.tracking.max_frames_to_skip as int
                && t.spec_min_frames_to_confirm() == config.tracking.min_frames_to_confirm as int
                && t.spec_max_tracks() == config.tracking.max_tracks as int,
    {
        Ok(DroneTracker {
            max_frames_to_skip: config.tracking.max_frames_to_skip,
            iou_threshold_ppm: config.tracking.iou_threshold_ppm,
            process_noise_u: config.tracking.kalman_process_noise_u,
            measurement_noise_u: config.tracking.kalman_measurement_noise_u,
            max_tracks: config.tracking.max_tracks,
            min_frames_to_confirm: config.tracking.min_frames_to_confirm,
            tracks: Vec::new(),
            next_id: 1,
            drone_associations: Vec::new(),
            frame_count: 0,
        })
    }

    /// Ingests one frame of detections.
    ///
    /// Existing tracks are advanced by one prediction step; detections are
    /// associated greedily by disc overlap; matched tracks are corrected
    /// and their detection streak extended (confirming them at the
    /// configured streak); unmatched detections spawn tracks while the cap
    /// allows; tracks unseen for the configured horizon are retired, and
    /// a retired track's drone association is dropped with it. The
    /// returned list holds confirmed tracks only, each seen more recently
    /// than the retirement horizon.
    pub fn update(&mut self, detections: &Vec<DetectedHalo>) -> (r: Result<
        Vec<ActiveTrack>,
        CvError,
    >)
        requires
            old(self).wf(),
        ensures
            final(self).wf(),
            r is Ok,
            r matches Ok(act) && act@.len() == count_exported(
                final(self).spec_tracks(),
                final(self).spec_max_frames_to_skip(),
            ) && (forall|k: int|
                0 <= k < act@.len() ==> #[trigger] carr_at(
                    act@,
                    final(self).spec_tracks(),
                    final(self).spec_tracks().len() as int,
                    final(self).spec_max_frames_to_skip(),
                    k,
                )),
            final(self).spec_max_frames_to_skip() == old(self).spec_max_frames_to_skip(),
            final(self).spec_min_frames_to_confirm() == old(self).spec_min_frames_to_confirm(),
            final(self).spec_max_tracks() == old(self).spec_max_tracks(),
            // Every live track is within the retirement horizon.
            forall|k: int|
                0 <= k < final(self).spec_tracks().len() ==> (#[trigger] final(self).spec_tracks()[k]).frames_since_detection as int <= final(self).spec_max_frames_to_skip(),
            // An empty frame matches nothing and spawns nothing: every
            // track ages one frame with its streak broken, and exactly
            // the tracks aged past the horizon are retired.
            detections@.len() == 0 ==> {
                &&& final(self).spec_tracks().len() == count_aged_survivors(
                    old(self).spec_tracks(),
                    old(self).spec_max_frames_to_skip(),
                )
                &&& (forall|k: int|
                    0 <= k < final(self).spec_tracks().len() ==> #[trigger] aged_at(
                        final(self).spec_tracks(),
                        old(self).spec_tracks(),
                        k,
                    ))
            },
    {
        self.frame_count = if self.frame_count < u64::MAX {
            self.frame_count + 1
        } else {
            self.frame_count
        };

        // Step 1: advance every track's filter one step.
        let n0: usize = self.tracks.len();
        let mut i: usize = 0;
        while i < n0
            invariant
                i <= n0,
                n0 == self.tracks@.len(),
                n0 == old(self).tracks@.len(),
                self.tracks@.len() <= self.max_tracks as int,
                self.max_frames_to_skip == old(self).max_frames_to_skip,
                self.min_frames_to_confirm == old(self).min_frames_to_confirm,
                self.max_tracks == old(self).max_tracks,
                forall|j: int|
                    0 <= j < self.tracks@.len() ==> (#[trigger] self.tracks@[j]).kalman.wf(),
                forall|j: int|
                    0 <= j < i ==> same_lifecycle(#[trigger] self.tracks@[j], old(self).tracks@[j]),
                forall|j: int| i <= j < n0 ==> #[trigger] self.tracks@[j] == old(self).tracks@[j],
            decreases n0 - i,
        {
            let trk = &mut self.tracks[i];
            let _ = trk.kalman.predict();
            i += 1;
        }

        // Step 2: cost matrix and greedy association.
        let nd: usize = detections.len();
        let cost = self.build_cost_matrix(detections);
        let (assigned_det, det_used) = greedy_assign(&cost, nd);

        // Step 3: fold matched detections into their tracks.
        let mut i: usize = 0;
        while i < n0
            invariant
                i <= n0,
                n0 == self.tracks@.len(),
                n0 == old(self).tracks@.len(),
                nd == detections@.len(),
                assigned_det@.len() == n0,
                self.tracks@.len() <= self.max_tracks as int,
                self.max_frames_to_skip == old(self).max_frames_to_skip,
                self.min_frames_to_confirm == old(self).min_frames_to_confirm,
                self.max_tracks == old(self).max_tracks,
                forall|j: int|
                    0 <= j < self.tracks@.len() ==> (#[trigger] self.tracks@[j]).kalman.wf(),
                forall|j: int|
                    0 <= j < n0 ==> ((#[trigger] assigned_det@[j]) matches Some(d) ==> (
                    d as int) < detections@.len()),
                forall|j: int|
                    0 <= j < i && assigned_det@[j] is None ==> aged_from(
                        #[trigger] self.tracks@[j],
                        old(self).tracks@[j],
                    ),
                forall|j: int|
                    0 <= j < i ==> (#[trigger] self.tracks@[j]).frames_since_detection as int
                        <= aged_gap(old(self).tracks@[j]),
                forall|j: int|
                    i <= j < n0 ==> same_lifecycle(
                        #[trigger] self.tracks@[j],
                        old(self).tracks@[j],
                    ),
            decreases n0 - i,
        {
            if let Some(d) = assigned_det[i] {
                let det: &DetectedHalo = &detections[d];
                let mx: i64 = clamp_coord(det.center_x);
                let my: i64 = clamp_coord(det.center_y);
                let trk = &mut self.tracks[i];
                let _ = trk.kalman.update(mx, my);
                trk.last_detection = *det;
                trk.frames_since_detection = 0;
                trk.consecutive_detections = if trk.consecutive_detections < u32::MAX {
                    trk.consecutive_detections + 1
                } else {
                    trk.consecutive_detections
                };
                trk.confidence_ppm = det.confidence_ppm;
                if !trk.confirmed && trk.consecutive_detections >= self.min_frames_to_confirm {
                    trk.confirmed = true;
                }
            } else {
                // Unmatched: extend the gap, break the streak.
                let trk = &mut self.tracks[i];
                trk.frames_since_detection = if trk.frames_since_detection < u32::MAX {
                    trk.frames_since_detection + 1
                } else {
                    trk.frames_since_detection
                };
                trk.consecutive_detections = 0;
                proof {
                    assert(aged_from(self.tracks@[i as int], old(self).tracks@[i as int]));
                }
            }
            i += 1;
        }

        // Step 4: retire tracks unseen past the horizon, dropping their
        // drone associations with them.
        let max_skip = self.max_frames_to_skip;
        let ghost staged = self.tracks@;
        proof {
            if nd == 0 {
                assert(forall|j: int|
                    0 <= j < staged.len() ==> aged_from(#[trigger] staged[j], old(self).tracks@[j]));
                lemma_count_aged(staged, old(self).tracks@, max_skip as int);
            }
            assert(staged.take(staged.len() as int) =~= staged);
        }
        let mut kept: Vec<TrackState> = Vec::new();
        loop
            invariant
                self.tracks@.len() + kept@.len() <= self.max_tracks as int,
                self.max_frames_to_skip == old(self).max_frames_to_skip,
                self.min_frames_to_confirm == old(self).min_frames_to_confirm,
                self.max_tracks == old(self).max_tracks,
                max_skip == self.max_frames_to_skip,
                forall|j: int|
                    0 <= j < self.tracks@.len() ==> (#[trigger] self.tracks@[j]).kalman.wf(),
                forall|j: int| 0 <= j < kept@.len() ==> (#[trigger] kept@[j]).kalman.wf(),
                self.tracks@.len() <= staged.len(),
                staged.len() == old(self).tracks@.len(),
                self.tracks@ == staged.take(self.tracks@.len() as int),
                nd == 0 ==> forall|j: int|
                    0 <= j < staged.len() ==> aged_from(#[trigger] staged[j], old(self).tracks@[j]),
                nd == 0 ==> count_gap_ok(staged, max_skip as int) == count_aged_survivors(
                    old(self).tracks@,
                    max_skip as int,
                ),
                forall|q: int|
                    0 <= q < kept@.len() ==> (#[trigger] kept@[q]).frames_since_detection
                        <= max_skip,
                nd == 0 ==> kept@.len() as int == count_gap_ok(staged, max_skip as int)
                    - count_gap_ok(
                    staged.take(self.tracks@.len() as int),
                    max_skip as int,
                ),
                nd == 0 ==> forall|q: int|
                    0 <= q < kept@.len() ==> #[trigger] aged_at(kept@, old(self).tracks@, q),
            ensures
                self.tracks@.len() == 0,
            decreases self.tracks@.len(),
        {
            let ghost pre_len = self.tracks@.len() as int;
            let ghost pre_kept = kept@;
            let nxt = self.tracks.pop();
            match nxt {
                Some(t) => {
                    proof {
                        assert(staged.take(pre_len).drop_last() =~= staged.take(pre_len - 1));
                        assert(t == staged[pre_len - 1]);
                    }
                    if t.frames_since_detection <= max_skip {
                        kept.push(t);
                        proof {
                            if nd == 0 {
                                assert(aged_from(t, old(self).tracks@[pre_len - 1]));
                                assert forall|q: int| 0 <= q < kept@.len() implies
                                    #[trigger] aged_at(kept@, old(self).tracks@, q) by {
                                    if q < pre_kept.len() {
                                        assert(aged_at(pre_kept, old(self).tracks@, q));
                                        let j = choose|j: int|
                                            0 <= j < old(self).tracks@.len() && aged_from(
                                                pre_kept[q],
                                                #[trigger] old(self).tracks@[j],
                                            );
                                        assert(kept@[q] == pre_kept[q]);
                                        assert(aged_from(kept@[q], old(self).tracks@[j]));
                                    } else {
                                        assert(kept@[q] == t);
                                        assert(aged_from(kept@[q], old(self).tracks@[pre_len - 1]));
                                    }
                                }
                            }
                        }
                    } else {
                        remove_association_from(&mut self.drone_associations, t.tracking_id);
                    }
                },
                None => {
                    break ;
                },
            }
        }
        // `kept` is reversed; restore creation order.
        loop
            invariant
                self.tracks@.len() + kept@.len() <= self.max_tracks as int,
                self.max_frames_to_skip == old(self).max_frames_to_skip,
                self.min_frames_to_confirm == old(self).min_frames_to_confirm,
                self.max_tracks == old(self).max_tracks,
                max_skip == self.max_frames_to_skip,
                forall|j: int|
                    0 <= j < self.tracks@.len() ==> (#[trigger] self.tracks@[j]).kalman.wf(),
                forall|j: int| 0 <= j < kept@.len() ==> (#[trigger] kept@[j]).kalman.wf(),
                forall|q: int|
                    0 <= q < self.tracks@.len() ==> (#[trigger] self.tracks@[q]).frames_since_detection
                        <= max_skip,
                forall|q: int|
                    0 <= q < kept@.len() ==> (#[trigger] kept@[q]).frames_since_detection
                        <= max_skip,
                nd == 0 ==> self.tracks@.len() + kept@.len() == count_gap_ok(
                    staged,
                    max_skip as int,
                ),
                nd == 0 ==> count_gap_ok(staged, max_skip as int) == count_aged_survivors(
                    old(self).tracks@,
                    max_skip as int,
                ),
                nd == 0 ==> forall|q: int|
                    0 <= q < self.tracks@.len() ==> #[trigger] aged_at(
                        self.tracks@,
                        old(self).tracks@,
                        q,
                    ),
                nd == 0 ==> forall|q: int|
                    0 <= q < kept@.len() ==> #[trigger] aged_at(kept@, old(self).tracks@, q),
            ensures
                kept@.len() == 0,
            decreases kept@.len(),
        {
            let ghost pre_tracks = self.tracks@;
            let ghost pre_kept = kept@;
            let nxt = kept.pop();
            match nxt {
                Some(t) => {
                    self.tracks.push(t);
                    proof {
                        if nd == 0 {
                            assert(t == pre_kept.last());
                            assert(aged_at(pre_kept, old(self).tracks@, pre_kept.len() - 1));
                            assert forall|q: int| 0 <= q < self.tracks@.len() implies
                                #[trigger] aged_at(self.tracks@, old(self).tracks@, q) by {
                                if q < pre_tracks.len() {
                                    assert(aged_at(pre_tracks, old(self).tracks@, q));
                                    let j = choose|j: int|
                                        0 <= j < old(self).tracks@.len() && aged_from(
                                            pre_tracks[q],
                                            #[trigger] old(self).tracks@[j],
                                        );
                                    assert(self.tracks@[q] == pre_tracks[q]);
                                    assert(aged_from(self.tracks@[q], old(self).tracks@[j]));
                                } else {
                                    let j = choose|j: int|
                                        0 <= j < old(self).tracks@.len() && aged_from(
                                            pre_kept[pre_kept.len() - 1],
                                            #[trigger] old(self).tracks@[j],
                                        );
                                    assert(self.tracks@[q] == t);
                                    assert(aged_from(self.tracks@[q], old(self).tracks@[j]));
                                }
                            }
                            assert forall|q: int| 0 <= q < kept@.len() implies #[trigger] aged_at(
                                kept@,
                                old(self).tracks@,
                                q,
                            ) by {
                                assert(aged_at(pre_kept, old(self).tracks@, q));
                                let j = choose|j: int|
                                    0 <= j < old(self).tracks@.len() && aged_from(
                                        pre_kept[q],
                                        #[trigger] old(self).tracks@[j],
                                    );
                                assert(kept@[q] == pre_kept[q]);
                                assert(aged_from(kept@[q], old(self).tracks@[j]));
                            }
                        }
                    }
                },
                None => {
                    break ;
                },
            }
        }

        // Step 5: spawn tracks for unmatched detections while room remains.
        let mut d: usize = 0;
        while d < nd
            invariant
                d <= nd,
                nd == detections@.len(),
                det_used@.len() == nd,
                self.tracks@.len() <= self.max_tracks as int,
                self.max_frames_to_skip == old(self).max_frames_to_skip,
                self.min_frames_to_confirm == old(self).min_frames_to_confirm,
                self.max_tracks == old(self).max_tracks,
                max_skip == self.max_frames_to_skip,
                forall|j: int|
                    0 <= j < self.tracks@.len() ==> (#[trigger] self.tracks@[j]).kalman.wf(),
                forall|q: int|
                    0 <= q < self.tracks@.len() ==> (#[trigger] self.tracks@[q]).frames_since_detection
                        <= max_skip,
                nd == 0 ==> self.tracks@.len() == count_aged_survivors(
                    old(self).tracks@,
                    max_skip as int,
                ),
                nd == 0 ==> forall|q: int|
                    0 <= q < self.tracks@.len() ==> #[trigger] aged_at(
                        self.tracks@,
                        old(self).tracks@,
                        q,
                    ),
            decreases nd - d,
        {
            if !det_used[d] && self.tracks.len() < self.max_tracks {
                self.create_track(&detections[d]);
            }
            d += 1;
        }

        // Step 6: export confirmed tracks that are fresher than the horizon.
        let out = self.export_active();
        Ok(out)
    }

    /// Builds the per-track, per-detection cost matrix: `PPM - overlap`
    /// where the overlap clears the threshold, else the forbidden cost.
    fn build_cost_matrix(&self, detections: &Vec<DetectedHalo>) -> (cost: Vec<Vec<u64>>)
        requires
            self.wf(),
        ensures
            cost@.len() == self.spec_tracks().len(),
            forall|i: int|
                0 <= i < cost@.len() ==> (#[trigger] cost@[i])@.len() == detections@.len(),
    {
        let nt: usize = self.tracks.len();
        let nd: usize = detections.len();
        let mut cost: Vec<Vec<u64>> = Vec::new();
        let mut t: usize = 0;
        while t < nt
            invariant
                t <= nt,
                nt == self.tracks@.len(),
                self.wf(),
                cost@.len() == t,
                forall|i: int| 0 <= i < t ==> (#[trigger] cost@[i])@.len() == detections@.len(),
                nd == detections@.len(),
            decreases nt - t,
        {
            let trk = &self.tracks[t];
            let (pxu, pyu) = trk.kalman.position();
            let px: i32 = upx_to_px(pxu);
            let py: i32 = upx_to_px(pyu);
            let pr: i32 = clamp_radius(trk.last_detection.radius);
            let mut row: Vec<u64> = Vec::new();
            let mut d: usize = 0;
            while d < nd
                invariant
                    d <= nd,
                    nd == detections@.len(),
                    row@.len() == d,
                    -1_000_000 <= px <= 1_000_000,
                    -1_000_000 <= py <= 1_000_000,
                    0 <= pr <= 1_000_000,
                decreases nd - d,
            {
                let det = &detections[d];
                let iou: u32 = circle_iou_ppm(
                    px,
                    py,
                    pr,
                    clamp_coord_i32(det.center_x),
                    clamp_coord_i32(det.center_y),
                    clamp_radius(det.radius),
                );
                let c: u64 = if iou > self.iou_threshold_ppm {
                    (PPM - iou) as u64
                } else {
                    COST_INF
                };
                row.push(c);
                d += 1;
            }
            cost.push(row);
            t += 1;
        }
        cost
    }

    /// Spawns a new track from a detection, with a fresh increasing id:
    /// an unbroken streak of one, no gap, confirmed only when a single
    /// frame suffices.
    fn create_track(&mut self, detection: &DetectedHalo)
        requires
            old(self).wf(),
            old(self).spec_tracks().len() < old(self).spec_max_tracks(),
        ensures
            final(self).wf(),
            final(self).spec_tracks().len() == old(self).spec_tracks().len() + 1,
            forall|j: int|
                0 <= j < old(self).spec_tracks().len() ==> final(self).spec_tracks()[j] == old(self).spec_tracks()[j],
            final(self).spec_tracks().last().frames_since_detection == 0,
            final(self).spec_tracks().last().consecutive_detections == 1,
            final(self).spec_tracks().last().last_detection == *detection,
            final(self).spec_tracks().last().confidence_ppm == detection.confidence_ppm,
            final(self).spec_tracks().last().confirmed == (old(self).spec_min_frames_to_confirm()
                <= 1),
            final(self).spec_max_tracks() == old(self).spec_max_tracks(),
            final(self).spec_max_frames_to_skip() == old(self).spec_max_frames_to_skip(),
            final(self).spec_min_frames_to_confirm() == old(self).spec_min_frames_to_confirm(),
    {
        let tracking_id: u32 = self.next_id;
        self.next_id = if self.next_id < u32::MAX {
            self.next_id + 1
        } else {
            self.next_id
        };
        let mut kalman = KalmanTracker::new(self.process_noise_u, self.measurement_noise_u);
        kalman.initialize(clamp_coord(detection.center_x), clamp_coord(detection.center_y));
        let confirmed0: bool = self.min_frames_to_confirm <= 1;
        self.tracks.push(
            TrackState {
                tracking_id,
                kalman,
                last_detection: *detection,
                frames_since_detection: 0,
                consecutive_detections: 1,
                confidence_ppm: detection.confidence_ppm,
                confirmed: confirmed0,
            },
        );
    }

    /// The exported view: confirmed tracks seen within the horizon.
    fn export_active(&self) -> (out: Vec<ActiveTrack>)
        requires
            self.wf(),
        ensures
            out@.len() == count_exported(self.spec_tracks(), self.spec_max_frames_to_skip()),
            forall|k: int|
                0 <= k < out@.len() ==> #[trigger] carr_at(
                    out@,
                    self.spec_tracks(),
                    self.spec_tracks().len() as int,
                    self.spec_max_frames_to_skip(),
                    k,
                ),
    {
        let n: usize = self.tracks.len();
        let mut out: Vec<ActiveTrack> = Vec::new();
        let mut i: usize = 0;
        while i < n
            invariant
                i <= n,
                n == self.tracks@.len(),
                self.wf(),
                out@.len() == count_exported(
                    self.spec_tracks().take(i as int),
                    self.spec_max_frames_to_skip(),
                ),
                forall|k: int|
                    0 <= k < out@.len() ==> #[trigger] carr_at(out@, self.spec_tracks(), i as int, self.spec_max_frames_to_skip(), k),
            decreases n - i,
        {
            let trk = &self.tracks[i];
            let ghost pre_out = out@;
            if trk.confirmed && trk.frames_since_detection < self.max_frames_to_skip {
                let drone_id = self.lookup_association(trk.tracking_id);
                out.push(
                    ActiveTrack {
                        tracking_id: trk.tracking_id,
                        drone_id,
                        kalman: trk.kalman,
                        last_detection: trk.last_detection,
                        frames_since_seen: trk.frames_since_detection,
                        confidence_ppm: trk.confidence_ppm,
                        estimated_position: None,
                    },
                );
                proof {
                    assert(exported(self.spec_tracks()[i as int], self.spec_max_frames_to_skip()));
                    assert(carries(out@[pre_out.len() as int], self.spec_tracks()[i as int]));
                }
            }
            proof {
                assert(self.spec_tracks().take(i + 1 as int).drop_last() =~= self.spec_tracks()
                    .take(i as int));
                assert(self.spec_tracks().take(i + 1 as int).last() == self.spec_tracks()[i as int]);
                assert forall|k: int| 0 <= k < out@.len() implies #[trigger] carr_at(
                    out@,
                    self.spec_tracks(),
                    i + 1,
                    self.spec_max_frames_to_skip(),
                    k,
                ) by {
                    if k < pre_out.len() {
                        assert(carr_at(
                            pre_out,
                            self.spec_tracks(),
                            i as int,
                            self.spec_max_frames_to_skip(),
                            k,
                        ));
                        let j = choose|j: int|
                            0 <= j < i && exported(
                                #[trigger] self.spec_tracks()[j],
                                self.spec_max_frames_to_skip(),
                            ) && carries(pre_out[k], self.spec_tracks()[j]);
                        assert(out@[k] == pre_out[k]);
                        assert(carries(out@[k], self.spec_tracks()[j]));
                    } else {
                        assert(k == pre_out.len() as int);
                        assert(out@.len() == pre_out.len() + 1);
                        assert(carries(out@[k], self.spec_tracks()[i as int]));
                        assert(exported(
                            self.spec_tracks()[i as int],
                            self.spec_max_frames_to_skip(),
                        ));
                    }
                }
            }
            i += 1;
        }
        proof {
            assert(self.spec_tracks().take(n as int) =~= self.spec_tracks());
        }
        out
    }

    /// The drone associated with a tracking id, if any.
    fn lookup_association(&self, tracking_id: u32) -> (r: Option<DroneId>) {
        let n: usize = self.drone_associations.len();
        let mut i: usize = 0;
        while i < n
            invariant
                i <= n,
                n == self.drone_associations@.len(),
            decreases n - i,
        {
            if self.drone_associations[i].0 == tracking_id {
                return Some(self.drone_associations[i].1.clone());
            }
            i += 1;
        }
        None
    }

    /// Associates a tracking id with a drone, replacing any earlier
    /// association of that id.
    pub fn associate_drone(&mut self, tracking_id: u32, drone_id: DroneId)
        requires
            old(self).wf(),
        ensures
            final(self).wf(),
            final(self).spec_tracks() == old(self).spec_tracks(),
    {
        let n: usize = self.drone_associations.len();
        let mut existing: Option<usize> = None;
        let mut i: usize = 0;
        while i < n
            invariant
                i <= n,
                n == self.drone_associations@.len(),
                existing matches Some(k) ==> (k as int) < n,
            decreases n - i,
        {
            if self.drone_associations[i].0 == tracking_id {
                existing = Some(i);
            }
            i += 1;
        }
        if let Some(k) = existing {
            let _ = self.drone_associations.remove(k);
        }
        self.drone_associations.push((tracking_id, drone_id));
    }

    /// The number of confirmed tracks.
    pub fn active_count(&self) -> (r: usize)
        ensures
            r == count_confirmed(self.spec_tracks()),
    {
        let n: usize = self.tracks.len();
        let mut count: usize = 0;
        let mut i: usize = 0;
        while i < n
            invariant
                i <= n,
                n == self.tracks@.len(),
                count == count_confirmed(self.spec_tracks().take(i as int)),
                count <= i,
            decreases n - i,
        {
            if self.tracks[i].confirmed {
                count += 1;
            }
            proof {
                assert(self.spec_tracks().take(i + 1 as int).drop_last() =~= self.spec_tracks()
                    .take(i as int));
                assert(self.spec_tracks().take(i + 1 as int).last() == self.spec_tracks()[i as int]);
            }
            i += 1;
        }
        proof {
            assert(self.spec_tracks().take(n as int) =~= self.spec_tracks());
        }
        count
    }

    /// The number of live tracks, confirmed or not.
    pub fn total_count(&self) -> (r: usize)
        ensures
            r == self.spec_tracks().len(),
    {
        self.tracks.len()
    }

    /// The ids of all confirmed tracks, in creation order.
    pub fn active_track_ids(&self) -> (r: Vec<u32>)
        ensures
            r@.len() == count_confirmed(self.spec_tracks()),
    {
        let n: usize = self.tracks.len();
        let mut out: Vec<u32> = Vec::new();
        let mut i: usize = 0;
        while i < n
            invariant
                i <= n,
                n == self.tracks@.len(),
                out@.len() == count_confirmed(self.spec_tracks().take(i as int)),
            decreases n - i,
        {
            if self.tracks[i].confirmed {
                out.push(self.tracks[i].tracking_id);
            }
            proof {
                assert(self.spec_tracks().take(i + 1 as int).drop_last() =~= self.spec_tracks()
                    .take(i as int));
                assert(self.spec_tracks().take(i + 1 as int).last() == self.spec_tracks()[i as int]);
            }
            i += 1;
        }
        proof {
            assert(self.spec_tracks().take(n as int) =~= self.spec_tracks());
        }
        out
    }

    /// Drops every track and association.
    pub fn clear(&mut self)
        ensures
            final(self).wf(),
            final(self).spec_tracks().len() == 0,
    {
        self.tracks.clear();
        self.drone_associations.clear();
    }
}

/// Drops every association of one tracking id, keeping the others in
/// order.
fn remove_association_from(assoc: &mut Vec<(u32, DroneId)>, tracking_id: u32)
    ensures
        forall|q: int| 0 <= q < final(assoc)@.len() ==> (#[trigger] final(assoc)@[q]).0
            != tracking_id,
        final(assoc)@.len() <= old(assoc)@.len(),
{
    let n: usize = assoc.len();
    let mut out: Vec<(u32, DroneId)> = Vec::new();
    let mut i: usize = 0;
    while i < n
        invariant
            i <= n,
            n == assoc@.len(),
            *assoc == *old(assoc),
            out@.len() <= i,
            forall|q: int| 0 <= q < out@.len() ==> (#[trigger] out@[q]).0 != tracking_id,
        decreases n - i,
    {
        if assoc[i].0 != tracking_id {
            let id = assoc[i].1.clone();
            out.push((assoc[i].0, id));
        }
        i += 1;
    }
    *assoc = out;
}

/// Clamp a pixel coordinate into the tracker's working window, as
/// micro-pixels.
fn clamp_coord(c: i32) -> (r: i64)
    ensures
        -1_000_000_000_000 <= r <= 1_000_000_000_000,
        -1_000_000 * (KSCALE as int) <= r <= 1_000_000 * (KSCALE as int),
{
    let cc: i64 = if c > 1_000_000 {
        1_000_000
    } else if c < -1_000_000 {
        -1_000_000
    } else {
        c as i64
    };
    cc * KSCALE
}

/// Clamp a pixel coordinate into the tracker's working window.
fn clamp_coord_i32(c: i32) -> (r: i32)
    ensures
        -1_000_000 <= r <= 1_000_000,
{
    if c > 1_000_000 {
        1_000_000
    } else if c < -1_000_000 {
        -1_000_000
    } else {
        c
    }
}

/// Clamp a radius into `[0, 1e6]` pixels.
fn clamp_radius(r: i32) -> (rr: i32)
    ensures
        0 <= rr <= 1_000_000,
{
    if r < 0 {
        0
    } else if r > 1_000_000 {
        1_000_000
    } else {
        r
    }
}

/// Micro-pixels to whole pixels, rounded toward zero and clamped.
fn upx_to_px(v: i64) -> (r: i32)
    ensures
        -1_000_000 <= r <= 1_000_000,
{
    let mag: i64 = if v >= 0 {
        v
    } else if v == i64::MIN {
        i64::MAX
    } else {
        -v
    };
    let px: i64 = mag / KSCALE;
    let px_c: i64 = if px > 1_000_000 {
        1_000_000
    } else {
        px
    };
    if v >= 0 {
        px_c as i32
    } else {
        -(px_c as i32)
    }
}

/// Greedy assignment over the cost matrix: repeatedly commit the least
/// finite cost among unused rows and columns, ties broken by the lower
/// row and then the lower column.
///
/// Returns, per row, the assigned column, and, per column, whether it was
/// taken. The assignment is injective and uses only finite costs.
fn greedy_assign(cost: &Vec<Vec<u64>>, nd: usize) -> (r: (Vec<Option<usize>>, Vec<bool>))
    requires
        forall|i: int| 0 <= i < cost@.len() ==> (#[trigger] cost@[i])@.len() == nd as int,
    ensures
        r.0@.len() == cost@.len(),
        r.1@.len() == nd as int,
        forall|i: int|
            0 <= i < r.0@.len() ==> ((#[trigger] r.0@[i]) matches Some(d) ==> (d as int) < nd
                as int),
        forall|i: int, j: int|
            0 <= i < j < r.0@.len() && r.0@[i] is Some && r.0@[j] is Some ==> r.0@[i]->0 != r.0@[j]->0,
{
    let nt: usize = cost.len();
    let mut assigned: Vec<Option<usize>> = Vec::new();
    let mut i: usize = 0;
    while i < nt
        invariant
            assigned@.len() == i,
            i <= nt,
            forall|k: int| 0 <= k < i ==> (#[trigger] assigned@[k]) is None,
        decreases nt - i,
    {
        assigned.push(None);
        i += 1;
    }
    let mut det_used: Vec<bool> = Vec::new();
    let mut i: usize = 0;
    while i < nd
        invariant
            det_used@.len() == i,
            i <= nd,
        decreases nd - i,
    {
        det_used.push(false);
        i += 1;
    }
    let mut track_used: Vec<bool> = Vec::new();
    let mut i: usize = 0;
    while i < nt
        invariant
            track_used@.len() == i,
            i <= nt,
            count_used(track_used@) == 0,
        decreases nt - i,
    {
        proof {
            assert(track_used@.push(false).drop_last() =~= track_used@);
        }
        track_used.push(false);
        i += 1;
    }

    let mut rounds: usize = 0;
    loop
        invariant
            assigned@.len() == nt,
            det_used@.len() == nd,
            track_used@.len() == nt,
            cost@.len() == nt,
            rounds <= nt,
            forall|i: int| 0 <= i < cost@.len() ==> (#[trigger] cost@[i])@.len() == nd as int,
            forall|k: int|
                0 <= k < nt ==> ((#[trigger] assigned@[k]) is Some ==> track_used@[k]),
            forall|k: int|
                0 <= k < nt ==> ((#[trigger] assigned@[k]) matches Some(d) ==> ((d as int) < nd
                    as int && det_used@[d as int])),
            forall|k1: int, k2: int|
                0 <= k1 < k2 < nt && assigned@[k1] is Some && assigned@[k2] is Some
                    ==> assigned@[k1]->0 != assigned@[k2]->0,
            rounds as int == count_used(track_used@),
        decreases nt - rounds,
    {
        let best = find_min_pair(cost, &track_used, &det_used);
        match best {
            Some((bt, bd)) => {
                proof {
                    lemma_count_used_update(track_used@, bt as int);
                }
                assigned = set_option(assigned, bt, bd);
                track_used = set_bool(track_used, bt, true);
                det_used = set_bool(det_used, bd, true);
                rounds += 1;
            },
            None => {
                break ;
            },
        }
    }
    (assigned, det_used)
}

/// The number of `true` entries.
pub open spec fn count_used(s: Seq<bool>) -> int
    decreases s.len(),
{
    if s.len() == 0 {
        0
    } else {
        count_used(s.drop_last()) + (if s.last() {
            1int
        } else {
            0int
        })
    }
}

proof fn lemma_count_used_bound(s: Seq<bool>)
    ensures
        0 <= count_used(s) <= s.len(),
    decreases s.len(),
{
    if s.len() > 0 {
        lemma_count_used_bound(s.drop_last());
    }
}

/// Setting a `false` entry to `true` raises the count by one.
proof fn lemma_count_used_update(s: Seq<bool>, i: int)
    requires
        0 <= i < s.len(),
        !s[i],
    ensures
        count_used(s.update(i, true)) == count_used(s) + 1,
        count_used(s) < s.len(),
    decreases s.len(),
{
    lemma_count_used_bound(s);
    if i == s.len() - 1 {
        assert(s.update(i, true).drop_last() =~= s.drop_last());
        lemma_count_used_bound(s.drop_last());
    } else {
        lemma_count_used_update(s.drop_last(), i);
        assert(s.update(i, true).drop_last() =~= s.drop_last().update(i, true));
        assert(s.update(i, true).last() == s.last());
        lemma_count_used_bound(s.drop_last());
    }
}

/// Writes one entry of a boolean vector.
fn set_bool(v: Vec<bool>, i: usize, val: bool) -> (r: Vec<bool>)
    requires
        (i as int) < v@.len(),
    ensures
        r@ == v@.update(i as int, val),
{
    let n: usize = v.len();
    let mut out: Vec<bool> = Vec::new();
    let mut k: usize = 0;
    while k < n
        invariant
            k <= n,
            n == v@.len(),
            (i as int) < n,
            out@.len() == k,
            forall|j: int|
                0 <= j < k ==> out@[j] == (if j == i as int {
                    val
                } else {
                    v@[j]
                }),
        decreases n - k,
    {
        if k == i {
            out.push(val);
        } else {
            out.push(v[k]);
        }
        k += 1;
    }
    proof {
        assert(out@ =~= v@.update(i as int, val));
    }
    out
}

/// Writes one entry of an option vector.
fn set_option(v: Vec<Option<usize>>, i: usize, val: usize) -> (r: Vec<Option<usize>>)
    requires
        (i as int) < v@.len(),
    ensures
        r@ == v@.update(i as int, Some(val)),
{
    let n: usize = v.len();
    let mut out: Vec<Option<usize>> = Vec::new();
    let mut k: usize = 0;
    while k < n
        invariant
            k <= n,
            n == v@.len(),
            (i as int) < n,
            out@.len() == k,
            forall|j: int|
                0 <= j < k ==> out@[j] == (if j == i as int {
                    Some(val)
                } else {
                    v@[j]
                }),
        decreases n - k,
    {
        if k == i {
            out.push(Some(val));
        } else {
            out.push(v[k]);
        }
        k += 1;
    }
    proof {
        assert(out@ =~= v@.update(i as int, Some(val)));
    }
    out
}

/// Whether `(t, d)` is the minimal unused finite-cost pair of the
/// matrix, ties broken by the lower row index and then the lower column
/// index.
pub open spec fn is_min_pair(
    cost: Seq<Vec<u64>>,
    track_used: Seq<bool>,
    det_used: Seq<bool>,
    t: int,
    d: int,
) -> bool {
    &&& 0 <= t < cost.len()
    &&& 0 <= d < det_used.len()
    &&& !track_used[t]
    &&& !det_used[d]
    &&& cost[t]@[d] < COST_INF
    &&& forall|t2: int, d2: int|
        0 <= t2 < cost.len() && 0 <= d2 < det_used.len() && !track_used[t2] && !det_used[d2] ==> (
        cost[t]@[d] < (#[trigger] cost[t2]@[d2]) || (cost[t]@[d] == cost[t2]@[d2] && (t < t2 || (t
            == t2 && d <= d2))))
}

/// The greedy selection is deterministic: at most one unused pair is
/// minimal under the cost-then-row-then-column order, so the whole
/// assignment depends only on the given order of tracks and detections.
pub proof fn lemma_min_pair_unique(
    cost: Seq<Vec<u64>>,
    track_used: Seq<bool>,
    det_used: Seq<bool>,
    t1: int,
    d1: int,
    t2: int,
    d2: int,
)
    requires
        is_min_pair(cost, track_used, det_used, t1, d1),
        is_min_pair(cost, track_used, det_used, t2, d2),
    ensures
        t1 == t2 && d1 == d2,
{
    assert(cost[t1]@[d1] < cost[t2]@[d2] || (cost[t1]@[d1] == cost[t2]@[d2] && (t1 < t2 || (t1
        == t2 && d1 <= d2))));
    assert(cost[t2]@[d2] < cost[t1]@[d1] || (cost[t2]@[d2] == cost[t1]@[d1] && (t2 < t1 || (t2
        == t1 && d2 <= d1))));
}

/// The least-cost unused pair, ties broken by the lower row index and
/// then the lower column index; `None` when no unused pair has a finite
/// cost.
fn find_min_pair(cost: &Vec<Vec<u64>>, track_used: &Vec<bool>, det_used: &Vec<bool>) -> (r: Option<
    (usize, usize),
>)
    requires
        cost@.len() == track_used@.len(),
        forall|i: int| 0 <= i < cost@.len() ==> (#[trigger] cost@[i])@.len() == det_used@.len(),
    ensures
        r matches Some((t, d)) ==> is_min_pair(cost@, track_used@, det_used@, t as int, d as int),
        r is None ==> forall|t2: int, d2: int|
            0 <= t2 < cost@.len() && 0 <= d2 < det_used@.len() && !track_used@[t2] && !det_used@[d2]
                ==> (#[trigger] cost@[t2]@[d2]) == COST_INF,
{
    let nt: usize = cost.len();
    let nd: usize = det_used.len();
    let mut best_t: usize = 0;
    let mut best_d: usize = 0;
    let mut best_c: u64 = COST_INF;
    let mut found: bool = false;
    let mut t: usize = 0;
    while t < nt
        invariant
            t <= nt,
            nt == cost@.len(),
            nd == det_used@.len(),
            cost@.len() == track_used@.len(),
            forall|i: int| 0 <= i < cost@.len() ==> (#[trigger] cost@[i])@.len() == nd as int,
            found ==> {
                &&& (best_t as int) < nt as int
                &&& (best_d as int) < nd as int
                &&& !track_used@[best_t as int]
                &&& !det_used@[best_d as int]
                &&& cost@[best_t as int]@[best_d as int] == best_c
                &&& best_c < COST_INF
                &&& (best_t as int) < t as int
            },
            !found ==> best_c == COST_INF,
            forall|t2: int, d2: int|
                0 <= t2 < t as int && 0 <= d2 < nd as int && !track_used@[t2] && !det_used@[d2]
                    ==> (best_c < (#[trigger] cost@[t2]@[d2]) || cost@[t2]@[d2] == COST_INF || (
                    found && best_c == cost@[t2]@[d2] && ((best_t as int) < t2 || ((
                    best_t as int) == t2 && (best_d as int) <= d2)))),
        decreases nt - t,
    {
        if !track_used[t] {
            let mut d: usize = 0;
            while d < nd
                invariant
                    d <= nd,
                    t < nt,
                    nt == cost@.len(),
                    nd == det_used@.len(),
                    cost@.len() == track_used@.len(),
                    forall|i: int|
                        0 <= i < cost@.len() ==> (#[trigger] cost@[i])@.len() == nd as int,
                    !track_used@[t as int],
                    found ==> {
                        &&& (best_t as int) < nt as int
                        &&& (best_d as int) < nd as int
                        &&& !track_used@[best_t as int]
                        &&& !det_used@[best_d as int]
                        &&& cost@[best_t as int]@[best_d as int] == best_c
                        &&& best_c < COST_INF
                        &&& ((best_t as int) < t as int || ((best_t as int) == t as int && (
                        best_d as int) < d as int))
                    },
                    !found ==> best_c == COST_INF,
                    forall|t2: int, d2: int|
                        0 <= t2 < t as int && 0 <= d2 < nd as int && !track_used@[t2]
                            && !det_used@[d2] ==> (best_c < (#[trigger] cost@[t2]@[d2])
                            || cost@[t2]@[d2] == COST_INF || (found && best_c == cost@[t2]@[d2]
                            && ((best_t as int) < t2 || ((best_t as int) == t2 && (best_d as int)
                            <= d2)))),
                    forall|d2: int|
                        0 <= d2 < d as int && !det_used@[d2] ==> (best_c < (
                        #[trigger] cost@[t as int]@[d2]) || cost@[t as int]@[d2] == COST_INF || (
                        found && best_c == cost@[t as int]@[d2] && ((best_t as int) < t as int || (
                        (best_t as int) == t as int && (best_d as int) <= d2)))),
                decreases nd - d,
            {
                if !det_used[d] {
                    let c: u64 = cost[t][d];
                    if c < best_c {
                        best_t = t;
                        best_d = d;
                        best_c = c;
                        found = true;
                    }
                }
                d += 1;
            }
        }
        t += 1;
    }
    if found {
        Some((best_t, best_d))
    } else {
        None
    }
}

} // verus!
