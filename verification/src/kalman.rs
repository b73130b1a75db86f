//! Constant-velocity Kalman filter over fixed-point state.
//!
//! State is `[x, y, vx, vy]` in micro-pixels and micro-pixels per second;
//! noises, the timestep and the covariance are scaled by `KSCALE`. All
//! intermediate values are clamped into fixed caps, so every operation is
//! total and the filter state stays well formed.

use vstd::prelude::*;

verus! {

/// Scale of the filter's fixed-point values.
pub const KSCALE: i64 = 1_000_000;

/// Cap on covariance magnitudes.
pub const COV_CAP: i64 = 1_000_000_000_000_000;

/// Cap on position magnitudes.
pub const POS_CAP: i64 = 100_000_000_000_000;

/// Cap on velocity magnitudes.
pub const VEL_CAP: i64 = 1_000_000_000_000;

/// Cap on Kalman gain magnitudes (a gain of at most 2).
pub const GAIN_CAP: i64 = 2_000_000;

/// Division rounded toward zero.
pub open spec fn tz_div(n: int, d: int) -> int {
    if n >= 0 {
        n / d
    } else {
        -((-n) / d)
    }
}

/// Magnitude of a value.
pub open spec fn iabs(v: int) -> int {
    if v >= 0 {
        v
    } else {
        -v
    }
}

/// Scale of the inverse innovation entries.
pub const SINV_SCALE: i64 = 1_000_000_000_000;

/// One entry of the scaled inverse innovation matrix: `num * SINV_SCALE
/// / det` with the magnitude clamped to `SINV_SCALE`, signed.
pub open spec fn sinv_of(num: int, det: int) -> int {
    let mag = iabs(num) * (SINV_SCALE as int) / iabs(det);
    let mag_c = if mag > SINV_SCALE as int {
        SINV_SCALE as int
    } else {
        mag
    };
    if (num < 0) != (det < 0) {
        -mag_c
    } else {
        mag_c
    }
}

/// One Kalman gain entry: `(pa * sa + pb * sb) / KSCALE` rounded toward
/// zero, with the magnitude clamped to `GAIN_CAP`.
pub open spec fn gain_of(pa: int, sa: int, pb: int, sb: int) -> int {
    let sum = pa * sa + pb * sb;
    let mag = iabs(sum) / (KSCALE as int);
    let mag_c = if mag > GAIN_CAP as int {
        GAIN_CAP as int
    } else {
        mag
    };
    if sum < 0 {
        -mag_c
    } else {
        mag_c
    }
}

/// One row entry of `(I - K H) P` on the measured block:
/// `(ca * qa + cb * qb) / KSCALE` rounded toward zero, with the
/// magnitude clamped to `COV_CAP`.
pub open spec fn ikh_of(ca: int, cb: int, qa: int, qb: int) -> int {
    let sum = ca * qa + cb * qb;
    let mag = iabs(sum) / (KSCALE as int);
    let mag_c = if mag > COV_CAP as int {
        COV_CAP as int
    } else {
        mag
    };
    if sum < 0 {
        -mag_c
    } else {
        mag_c
    }
}

/// Clamp into `[-cap, cap]`.
pub open spec fn clamp_to(v: int, cap: int) -> int {
    if v > cap {
        cap
    } else if v < -cap {
        -cap
    } else {
        v
    }
}

/// The product of two `KSCALE`-scaled values, rescaled and clamped to `cap`.
pub open spec fn scaled_mul(a: int, b: int, cap: int) -> int {
    clamp_to(tz_div(a * b, KSCALE as int), cap)
}

/// Clamped sum.
pub open spec fn cadd(a: int, b: int, cap: int) -> int {
    clamp_to(a + b, cap)
}

fn clamp_exec(v: i128, cap: i64) -> (r: i64)
    requires
        1 <= cap,
    ensures
        r == clamp_to(v as int, cap as int),
        -cap <= r <= cap,
{
    if v > cap as i128 {
        cap
    } else if v < -(cap as i128) {
        -cap
    } else {
        v as i64
    }
}

/// `a * b / KSCALE` rounded toward zero and clamped to `cap`.
fn smul(a: i64, b: i64, cap: i64) -> (r: i64)
    requires
        -10_000_000_000_000_000 <= a <= 10_000_000_000_000_000,
        -10_000_000_000_000_000 <= b <= 10_000_000_000_000_000,
        1 <= cap,
    ensures
        r == scaled_mul(a as int, b as int, cap as int),
        -cap <= r <= cap,
{
    let am: i128 = if a >= 0 {
        a as i128
    } else {
        -(a as i128)
    };
    let bm: i128 = if b >= 0 {
        b as i128
    } else {
        -(b as i128)
    };
    proof {
        assert(am * bm <= 100_000_000_000_000_000_000_000_000_000_000i128 && 0 <= am * bm)
            by (nonlinear_arith)
            requires
                0 <= am <= 10_000_000_000_000_000i128,
                0 <= bm <= 10_000_000_000_000_000i128,
        ;
        assert((a as int) * (b as int) == (if (a < 0) != (b < 0) {
            -((am as int) * (bm as int))
        } else {
            (am as int) * (bm as int)
        })) by (nonlinear_arith)
            requires
                am as int == (if a as int >= 0 {
                    a as int
                } else {
                    -(a as int)
                }),
                bm as int == (if b as int >= 0 {
                    b as int
                } else {
                    -(b as int)
                }),
        ;
    }
    let magq: i128 = am * bm / (KSCALE as i128);
    let signed: i128 = if (a < 0) != (b < 0) {
        -magq
    } else {
        magq
    };
    clamp_exec(signed, cap)
}

/// Clamped addition.
fn cadd_exec(a: i64, b: i64, cap: i64) -> (r: i64)
    requires
        1 <= cap,
    ensures
        r == cadd(a as int, b as int, cap as int),
        -cap <= r <= cap,
{
    clamp_exec(a as i128 + b as i128, cap)
}

/// The mathematical state of the filter: positions, velocities and the
/// sixteen covariance entries in row-major order.
pub struct KState {
    pub px: int,
    pub py: int,
    pub vx: int,
    pub vy: int,
    pub p: Seq<int>,
}

/// One prediction step on the model: positions move by velocity times
/// the timestep, and the covariance follows `F P F^T + Q`, every entry
/// rescaled and clamped exactly as the filter computes it.
pub open spec fn spec_predict(s: KState, dt: int, pnoise: int) -> KState {
    let px2 = cadd(s.px, scaled_mul(s.vx, dt, POS_CAP as int), POS_CAP as int);
    let py2 = cadd(s.py, scaled_mul(s.vy, dt, POS_CAP as int), POS_CAP as int);
    let d2 = scaled_mul(dt, dt, COV_CAP as int);
    let d3 = scaled_mul(d2, dt, COV_CAP as int);
    let d4 = scaled_mul(d2, d2, COV_CAP as int);
    let qa = scaled_mul(d4, pnoise, COV_CAP as int) / 4;
    let qb = scaled_mul(d3, pnoise, COV_CAP as int) / 2;
    let qc = scaled_mul(d2, pnoise, COV_CAP as int);
    let a00 = cadd(s.p[0], scaled_mul(dt, s.p[8], COV_CAP as int), COV_CAP as int);
    let a01 = cadd(s.p[1], scaled_mul(dt, s.p[9], COV_CAP as int), COV_CAP as int);
    let a02 = cadd(s.p[2], scaled_mul(dt, s.p[10], COV_CAP as int), COV_CAP as int);
    let a03 = cadd(s.p[3], scaled_mul(dt, s.p[11], COV_CAP as int), COV_CAP as int);
    let a10 = cadd(s.p[4], scaled_mul(dt, s.p[12], COV_CAP as int), COV_CAP as int);
    let a11 = cadd(s.p[5], scaled_mul(dt, s.p[13], COV_CAP as int), COV_CAP as int);
    let a12 = cadd(s.p[6], scaled_mul(dt, s.p[14], COV_CAP as int), COV_CAP as int);
    let a13 = cadd(s.p[7], scaled_mul(dt, s.p[15], COV_CAP as int), COV_CAP as int);
    KState {
        px: px2,
        py: py2,
        vx: s.vx,
        vy: s.vy,
        p: seq![
            cadd(cadd(a00, scaled_mul(dt, a02, COV_CAP as int), COV_CAP as int), qa, COV_CAP as int),
            cadd(a01, scaled_mul(dt, a03, COV_CAP as int), COV_CAP as int),
            cadd(a02, qb, COV_CAP as int),
            a03,
            cadd(a10, scaled_mul(dt, a12, COV_CAP as int), COV_CAP as int),
            cadd(cadd(a11, scaled_mul(dt, a13, COV_CAP as int), COV_CAP as int), qa, COV_CAP as int),
            a12,
            cadd(a13, qb, COV_CAP as int),
            cadd(cadd(s.p[8], scaled_mul(dt, s.p[10], COV_CAP as int), COV_CAP as int), qb, COV_CAP as int),
            cadd(s.p[9], scaled_mul(dt, s.p[11], COV_CAP as int), COV_CAP as int),
            cadd(s.p[10], qc, COV_CAP as int),
            s.p[11],
            cadd(s.p[12], scaled_mul(dt, s.p[14], COV_CAP as int), COV_CAP as int),
            cadd(cadd(s.p[13], scaled_mul(dt, s.p[15], COV_CAP as int), COV_CAP as int), qb, COV_CAP as int),
            s.p[14],
            cadd(s.p[15], qc, COV_CAP as int),
        ],
    }
}

/// The determinant of the scaled innovation matrix on the measured
/// block, after the measurement noise is added.
pub open spec fn spec_innovation_det(s: KState, mnoise: int) -> int {
    let s00 = cadd(s.p[0], mnoise, COV_CAP as int);
    let s11 = cadd(s.p[5], mnoise, COV_CAP as int);
    s00 * s11 - s.p[1] * s.p[4]
}

/// One measurement correction on the model: the Kalman gain from the
/// inverted innovation, the state moved by the gain times the residual,
/// and the covariance updated to `(I - K H) P`, every entry rescaled and
/// clamped exactly as the filter computes it.
pub open spec fn spec_correct(s: KState, mnoise: int, mx: int, my: int) -> KState {
    let rx = cadd(mx, -s.px, POS_CAP as int);
    let ry = cadd(my, -s.py, POS_CAP as int);
    let s00 = cadd(s.p[0], mnoise, COV_CAP as int);
    let s11 = cadd(s.p[5], mnoise, COV_CAP as int);
    let det = s00 * s11 - s.p[1] * s.p[4];
    let i00 = sinv_of(s11, det);
    let i01 = sinv_of(-s.p[1], det);
    let i10 = sinv_of(-s.p[4], det);
    let i11 = sinv_of(s00, det);
    let k00 = gain_of(s.p[0], i00, s.p[1], i10);
    let k01 = gain_of(s.p[0], i01, s.p[1], i11);
    let k10 = gain_of(s.p[4], i00, s.p[5], i10);
    let k11 = gain_of(s.p[4], i01, s.p[5], i11);
    let k20 = gain_of(s.p[8], i00, s.p[9], i10);
    let k21 = gain_of(s.p[8], i01, s.p[9], i11);
    let k30 = gain_of(s.p[12], i00, s.p[13], i10);
    let k31 = gain_of(s.p[12], i01, s.p[13], i11);
    KState {
        px: cadd(
            s.px,
            cadd(
                scaled_mul(k00, rx, POS_CAP as int),
                scaled_mul(k01, ry, POS_CAP as int),
                POS_CAP as int,
            ),
            POS_CAP as int,
        ),
        py: cadd(
            s.py,
            cadd(
                scaled_mul(k10, rx, POS_CAP as int),
                scaled_mul(k11, ry, POS_CAP as int),
                POS_CAP as int,
            ),
            POS_CAP as int,
        ),
        vx: cadd(
            s.vx,
            cadd(
                scaled_mul(k20, rx, VEL_CAP as int),
                scaled_mul(k21, ry, VEL_CAP as int),
                VEL_CAP as int,
            ),
            VEL_CAP as int,
        ),
        vy: cadd(
            s.vy,
            cadd(
                scaled_mul(k30, rx, VEL_CAP as int),
                scaled_mul(k31, ry, VEL_CAP as int),
                VEL_CAP as int,
            ),
            VEL_CAP as int,
        ),
        p: seq![
            ikh_of(KSCALE as int - k00, -k01, s.p[0], s.p[4]),
            ikh_of(KSCALE as int - k00, -k01, s.p[1], s.p[5]),
            ikh_of(KSCALE as int - k00, -k01, s.p[2], s.p[6]),
            ikh_of(KSCALE as int - k00, -k01, s.p[3], s.p[7]),
            ikh_of(-k10, KSCALE as int - k11, s.p[0], s.p[4]),
            ikh_of(-k10, KSCALE as int - k11, s.p[1], s.p[5]),
            ikh_of(-k10, KSCALE as int - k11, s.p[2], s.p[6]),
            ikh_of(-k10, KSCALE as int - k11, s.p[3], s.p[7]),
            cadd(ikh_of(-k20, -k21, s.p[0], s.p[4]), s.p[8], COV_CAP as int),
            cadd(ikh_of(-k20, -k21, s.p[1], s.p[5]), s.p[9], COV_CAP as int),
            cadd(ikh_of(-k20, -k21, s.p[2], s.p[6]), s.p[10], COV_CAP as int),
            cadd(ikh_of(-k20, -k21, s.p[3], s.p[7]), s.p[11], COV_CAP as int),
            cadd(ikh_of(-k30, -k31, s.p[0], s.p[4]), s.p[12], COV_CAP as int),
            cadd(ikh_of(-k30, -k31, s.p[1], s.p[5]), s.p[13], COV_CAP as int),
            cadd(ikh_of(-k30, -k31, s.p[2], s.p[6]), s.p[14], COV_CAP as int),
            cadd(ikh_of(-k30, -k31, s.p[3], s.p[7]), s.p[15], COV_CAP as int),
        ],
    }
}

/// Constant-velocity Kalman tracker.
#[derive(Clone, Copy, Debug)]
pub struct KalmanTracker {
    px: i64,
    py: i64,
    vx: i64,
    vy: i64,
    // Error covariance, scaled by KSCALE, row-major 4x4.
    p00: i64, p01: i64, p02: i64, p03: i64,
    p10: i64, p11: i64, p12: i64, p13: i64,
    p20: i64, p21: i64, p22: i64, p23: i64,
    p30: i64, p31: i64, p32: i64, p33: i64,
    process_noise: i64,
    measurement_noise: i64,
    dt_us: i64,
    initialized: bool,
    update_count: u64,
}

impl KalmanTracker {
    /// All fields within their caps.
    pub closed spec fn wf(self) -> bool {
        &&& -POS_CAP <= self.px <= POS_CAP
        &&& -POS_CAP <= self.py <= POS_CAP
        &&& -VEL_CAP <= self.vx <= VEL_CAP
        &&& -VEL_CAP <= self.vy <= VEL_CAP
        &&& -COV_CAP <= self.p00 <= COV_CAP
        &&& -COV_CAP <= self.p01 <= COV_CAP
        &&& -COV_CAP <= self.p02 <= COV_CAP
        &&& -COV_CAP <= self.p03 <= COV_CAP
        &&& -COV_CAP <= self.p10 <= COV_CAP
        &&& -COV_CAP <= self.p11 <= COV_CAP
        &&& -COV_CAP <= self.p12 <= COV_CAP
        &&& -COV_CAP <= self.p13 <= COV_CAP
        &&& -COV_CAP <= self.p20 <= COV_CAP
        &&& -COV_CAP <= self.p21 <= COV_CAP
        &&& -COV_CAP <= self.p22 <= COV_CAP
        &&& -COV_CAP <= self.p23 <= COV_CAP
        &&& -COV_CAP <= self.p30 <= COV_CAP
        &&& -COV_CAP <= self.p31 <= COV_CAP
        &&& -COV_CAP <= self.p32 <= COV_CAP
        &&& -COV_CAP <= self.p33 <= COV_CAP
        &&& 0 <= self.process_noise <= KSCALE
        &&& 0 <= self.measurement_noise <= KSCALE
        &&& 1 <= self.dt_us <= 10_000_000
    }

    pub closed spec fn spec_initialized(self) -> bool {
        self.initialized
    }

    pub closed spec fn spec_position(self) -> (int, int) {
        (self.px as int, self.py as int)
    }

    pub closed spec fn spec_velocity(self) -> (int, int) {
        (self.vx as int, self.vy as int)
    }

    pub closed spec fn spec_update_count(self) -> int {
        self.update_count as int
    }

    /// The configured timestep in microseconds.
    pub closed spec fn spec_dt(self) -> int {
        self.dt_us as int
    }

    /// The configured process noise, scaled by `KSCALE`.
    pub closed spec fn spec_process_noise(self) -> int {
        self.process_noise as int
    }

    /// The configured measurement noise, scaled by `KSCALE`.
    pub closed spec fn spec_measurement_noise(self) -> int {
        self.measurement_noise as int
    }

    /// The filter's mathematical state.
    pub closed spec fn model(self) -> KState {
        KState {
            px: self.px as int,
            py: self.py as int,
            vx: self.vx as int,
            vy: self.vy as int,
            p: seq![
                self.p00 as int, self.p01 as int, self.p02 as int, self.p03 as int,
                self.p10 as int, self.p11 as int, self.p12 as int, self.p13 as int,
                self.p20 as int, self.p21 as int, self.p22 as int, self.p23 as int,
                self.p30 as int, self.p31 as int, self.p32 as int, self.p33 as int,
            ],
        }
    }

    /// The position of the model is the filter's reported position.
    pub proof fn lemma_model_position(self)
        ensures
            self.spec_position() == (self.model().px, self.model().py),
            self.spec_velocity() == (self.model().vx, self.model().vy),
    {
    }

    /// A fresh filter: zero state, diagonal covariance of 1000 (scaled),
    /// uninitialized. Noises are clamped into `[0, KSCALE]`.
    pub fn new(process_noise_u: i64, measurement_noise_u: i64) -> (r: KalmanTracker)
        ensures
            r.wf(),
            !r.spec_initialized(),
            r.spec_update_count() == 0,
            r.spec_position() == (0int, 0int),
            r.spec_velocity() == (0int, 0int),
    {
        KalmanTracker {
            px: 0, py: 0, vx: 0, vy: 0,
            p00: 1_000_000_000, p01: 0, p02: 0, p03: 0,
            p10: 0, p11: 1_000_000_000, p12: 0, p13: 0,
            p20: 0, p21: 0, p22: 1_000_000_000, p23: 0,
            p30: 0, p31: 0, p32: 0, p33: 1_000_000_000,
            process_noise: if process_noise_u < 0 {
                0
            } else if process_noise_u > KSCALE {
                KSCALE
            } else {
                process_noise_u
            },
            measurement_noise: if measurement_noise_u < 0 {
                0
            } else if measurement_noise_u > KSCALE {
                KSCALE
            } else {
                measurement_noise_u
            },
            dt_us: 33_333,
            initialized: false,
            update_count: 0,
        }
    }

    /// Initializes the state from a measurement: position set, velocity
    /// zeroed, covariance reset.
    pub fn initialize(&mut self, x_upx: i64, y_upx: i64)
        requires
            old(self).wf(),
            -POS_CAP <= x_upx <= POS_CAP,
            -POS_CAP <= y_upx <= POS_CAP,
        ensures
            final(self).wf(),
            final(self).spec_initialized(),
            final(self).spec_position() == (x_upx as int, y_upx as int),
            final(self).spec_velocity() == (0int, 0int),
            final(self).spec_update_count() == 1,
            final(self).spec_dt() == old(self).spec_dt(),
            final(self).spec_process_noise() == old(self).spec_process_noise(),
            final(self).spec_measurement_noise() == old(self).spec_measurement_noise(),
    {
        self.px = x_upx;
        self.py = y_upx;
        self.vx = 0;
        self.vy = 0;
        self.p00 = 1_000_000_000;
        self.p01 = 0;
        self.p02 = 0;
        self.p03 = 0;
        self.p10 = 0;
        self.p11 = 1_000_000_000;
        self.p12 = 0;
        self.p13 = 0;
        self.p20 = 0;
        self.p21 = 0;
        self.p22 = 1_000_000_000;
        self.p23 = 0;
        self.p30 = 0;
        self.p31 = 0;
        self.p32 = 0;
        self.p33 = 1_000_000_000;
        self.initialized = true;
        self.update_count = 1;
    }

    /// Advances the state one timestep: positions move by velocity times
    /// the timestep; the covariance follows `F P F^T + Q`, clamped.
    /// Uninitialized, the filter stays put and reports the origin.
    pub fn predict(&mut self) -> (r: (i64, i64))
        requires
            old(self).wf(),
        ensures
            final(self).wf(),
            !old(self).spec_initialized() ==> r == (0i64, 0i64) && *final(self) == *old(self),
            old(self).spec_initialized() ==> {
                &&& final(self).model() == spec_predict(
                    old(self).model(),
                    old(self).spec_dt(),
                    old(self).spec_process_noise(),
                )
                &&& final(self).spec_position().0 == cadd(
                    old(self).spec_position().0,
                    scaled_mul(old(self).spec_velocity().0, old(self).spec_dt(), POS_CAP as int),
                    POS_CAP as int,
                )
                &&& final(self).spec_position().1 == cadd(
                    old(self).spec_position().1,
                    scaled_mul(old(self).spec_velocity().1, old(self).spec_dt(), POS_CAP as int),
                    POS_CAP as int,
                )
                &&& final(self).spec_velocity() == old(self).spec_velocity()
                &&& r.0 as int == final(self).spec_position().0
                &&& r.1 as int == final(self).spec_position().1
                &&& final(self).spec_initialized()
                &&& final(self).spec_update_count() == old(self).spec_update_count()
                &&& final(self).spec_dt() == old(self).spec_dt()
                &&& final(self).spec_process_noise() == old(self).spec_process_noise()
                &&& final(self).spec_measurement_noise() == old(self).spec_measurement_noise()
            },
    {
        if !self.initialized {
            return (0, 0);
        }
        let dt = self.dt_us;
        self.px = cadd_exec(self.px, smul(self.vx, dt, POS_CAP), POS_CAP);
        self.py = cadd_exec(self.py, smul(self.vy, dt, POS_CAP), POS_CAP);

        // Process noise blocks: dt^4/4 q, dt^3/2 q, dt^2 q.
        let d2 = smul(dt, dt, COV_CAP);
        let d3 = smul(d2, dt, COV_CAP);
        let d4 = smul(d2, d2, COV_CAP);
        let qa = smul(d4, self.process_noise, COV_CAP) / 4;
        let qb = smul(d3, self.process_noise, COV_CAP) / 2;
        let qc = smul(d2, self.process_noise, COV_CAP);

        // A = F P: row0 = P0 + dt P2, row1 = P1 + dt P3, rows 2,3 unchanged.
        let a00 = cadd_exec(self.p00, smul(dt, self.p20, COV_CAP), COV_CAP);
        let a01 = cadd_exec(self.p01, smul(dt, self.p21, COV_CAP), COV_CAP);
        let a02 = cadd_exec(self.p02, smul(dt, self.p22, COV_CAP), COV_CAP);
        let a03 = cadd_exec(self.p03, smul(dt, self.p23, COV_CAP), COV_CAP);
        let a10 = cadd_exec(self.p10, smul(dt, self.p30, COV_CAP), COV_CAP);
        let a11 = cadd_exec(self.p11, smul(dt, self.p31, COV_CAP), COV_CAP);
        let a12 = cadd_exec(self.p12, smul(dt, self.p32, COV_CAP), COV_CAP);
        let a13 = cadd_exec(self.p13, smul(dt, self.p33, COV_CAP), COV_CAP);
        let a20 = self.p20;
        let a21 = self.p21;
        let a22 = self.p22;
        let a23 = self.p23;
        let a30 = self.p30;
        let a31 = self.p31;
        let a32 = self.p32;
        let a33 = self.p33;

        // P' = A F^T + Q: col0 = A0 + dt A2, col1 = A1 + dt A3.
        self.p00 = cadd_exec(cadd_exec(a00, smul(dt, a02, COV_CAP), COV_CAP), qa, COV_CAP);
        self.p01 = cadd_exec(a01, smul(dt, a03, COV_CAP), COV_CAP);
        self.p02 = cadd_exec(a02, qb, COV_CAP);
        self.p03 = a03;
        self.p10 = cadd_exec(a10, smul(dt, a12, COV_CAP), COV_CAP);
        self.p11 = cadd_exec(cadd_exec(a11, smul(dt, a13, COV_CAP), COV_CAP), qa, COV_CAP);
        self.p12 = a12;
        self.p13 = cadd_exec(a13, qb, COV_CAP);
        self.p20 = cadd_exec(cadd_exec(a20, smul(dt, a22, COV_CAP), COV_CAP), qb, COV_CAP);
        self.p21 = cadd_exec(a21, smul(dt, a23, COV_CAP), COV_CAP);
        self.p22 = cadd_exec(a22, qc, COV_CAP);
        self.p23 = a23;
        self.p30 = cadd_exec(a30, smul(dt, a32, COV_CAP), COV_CAP);
        self.p31 = cadd_exec(cadd_exec(a31, smul(dt, a33, COV_CAP), COV_CAP), qb, COV_CAP);
        self.p32 = a32;
        self.p33 = cadd_exec(a33, qc, COV_CAP);

        proof {
            let t = spec_predict(
                old(self).model(),
                old(self).spec_dt(),
                old(self).spec_process_noise(),
            );
            assert(self.model().p =~= t.p);
            assert(self.model() == t);
        }
        (self.px, self.py)
    }

    /// Folds a measurement into the state. An uninitialized filter is
    /// initialized from the measurement and the measurement is returned.
    /// Otherwise the state is advanced one prediction step and, unless
    /// the innovation is numerically singular, corrected by the Kalman
    /// gain times the residual — the model equation pins the exact new
    /// state — the corrected position is returned and the update count
    /// rises by one. A singular innovation aborts the correction and
    /// returns the raw measurement, leaving the predicted state in place.
    pub fn update(&mut self, mx_upx: i64, my_upx: i64) -> (r: (i64, i64))
        requires
            old(self).wf(),
            -VEL_CAP <= mx_upx <= VEL_CAP,
            -VEL_CAP <= my_upx <= VEL_CAP,
        ensures
            final(self).wf(),
            final(self).spec_initialized(),
            final(self).spec_dt() == old(self).spec_dt(),
            final(self).spec_process_noise() == old(self).spec_process_noise(),
            final(self).spec_measurement_noise() == old(self).spec_measurement_noise(),
            !old(self).spec_initialized() ==> {
                &&& final(self).spec_position() == (mx_upx as int, my_upx as int)
                &&& final(self).spec_velocity() == (0int, 0int)
                &&& final(self).spec_update_count() == 1
                &&& r == (mx_upx, my_upx)
            },
            old(self).spec_initialized() ==> {
                let pred = spec_predict(
                    old(self).model(),
                    old(self).spec_dt(),
                    old(self).spec_process_noise(),
                );
                let det = spec_innovation_det(pred, old(self).spec_measurement_noise());
                &&& ((-100 < det < 100) ==> {
                    &&& final(self).model() == pred
                    &&& r == (mx_upx, my_upx)
                    &&& final(self).spec_update_count() == old(self).spec_update_count()
                })
                &&& (!(-100 < det < 100) ==> {
                    let cor = spec_correct(
                        pred,
                        old(self).spec_measurement_noise(),
                        mx_upx as int,
                        my_upx as int,
                    );
                    &&& final(self).model() == cor
                    &&& r.0 as int == cor.px
                    &&& r.1 as int == cor.py
                    &&& (r.0 as int, r.1 as int) == final(self).spec_position()
                    &&& final(self).spec_update_count() == (if old(self).spec_update_count()
                        < u64::MAX as int {
                        old(self).spec_update_count() + 1
                    } else {
                        old(self).spec_update_count()
                    })
                })
            },
    {
        if !self.initialized {
            self.initialize(mx_upx, my_upx);
            return (mx_upx, my_upx);
        }
        let _ = self.predict();
        let ghost pred = self.model();

        let rx: i64 = cadd_exec(mx_upx, -self.px, POS_CAP);
        let ry: i64 = cadd_exec(my_upx, -self.py, POS_CAP);

        let s00: i64 = cadd_exec(self.p00, self.measurement_noise, COV_CAP);
        let s01: i64 = self.p01;
        let s10: i64 = self.p10;
        let s11: i64 = cadd_exec(self.p11, self.measurement_noise, COV_CAP);

        proof {
            assert((s00 as i128) * (s11 as i128) <= 1_000_000_000_000_000_000_000_000_000_000i128
                && (s00 as i128) * (s11 as i128) >= -1_000_000_000_000_000_000_000_000_000_000i128)
                by (nonlinear_arith)
                requires
                    -1_000_000_000_000_000i128 <= s00 as i128 <= 1_000_000_000_000_000i128,
                    -1_000_000_000_000_000i128 <= s11 as i128 <= 1_000_000_000_000_000i128,
            ;
            assert((s01 as i128) * (s10 as i128) <= 1_000_000_000_000_000_000_000_000_000_000i128
                && (s01 as i128) * (s10 as i128) >= -1_000_000_000_000_000_000_000_000_000_000i128)
                by (nonlinear_arith)
                requires
                    -1_000_000_000_000_000i128 <= s01 as i128 <= 1_000_000_000_000_000i128,
                    -1_000_000_000_000_000i128 <= s10 as i128 <= 1_000_000_000_000_000i128,
            ;
        }
        let det: i128 = (s00 as i128) * (s11 as i128) - (s01 as i128) * (s10 as i128);
        proof {
            assert(det as int == spec_innovation_det(pred, old(self).spec_measurement_noise()));
        }
        if det > -100 && det < 100 {
            // Numerically singular innovation: keep the predicted state.
            return (mx_upx, my_upx);
        }

        let sinv00: i64 = sinv_entry(s11, det);
        let sinv01: i64 = sinv_entry(-s01, det);
        let sinv10: i64 = sinv_entry(-s10, det);
        let sinv11: i64 = sinv_entry(s00, det);

        // K = P H^T S^-1 (H projects onto the two position rows).
        let k00 = gain(self.p00, sinv00, self.p01, sinv10);
        let k01 = gain(self.p00, sinv01, self.p01, sinv11);
        let k10 = gain(self.p10, sinv00, self.p11, sinv10);
        let k11 = gain(self.p10, sinv01, self.p11, sinv11);
        let k20 = gain(self.p20, sinv00, self.p21, sinv10);
        let k21 = gain(self.p20, sinv01, self.p21, sinv11);
        let k30 = gain(self.p30, sinv00, self.p31, sinv10);
        let k31 = gain(self.p30, sinv01, self.p31, sinv11);

        // State correction: x += K r.
        self.px = cadd_exec(
            self.px,
            cadd_exec(smul(k00, rx, POS_CAP), smul(k01, ry, POS_CAP), POS_CAP),
            POS_CAP,
        );
        self.py = cadd_exec(
            self.py,
            cadd_exec(smul(k10, rx, POS_CAP), smul(k11, ry, POS_CAP), POS_CAP),
            POS_CAP,
        );
        self.vx = cadd_exec(
            self.vx,
            cadd_exec(smul(k20, rx, VEL_CAP), smul(k21, ry, VEL_CAP), VEL_CAP),
            VEL_CAP,
        );
        self.vy = cadd_exec(
            self.vy,
            cadd_exec(smul(k30, rx, VEL_CAP), smul(k31, ry, VEL_CAP), VEL_CAP),
            VEL_CAP,
        );

        // Covariance update: P = (I - K H) P, on the measured block.
        let q00 = self.p00;
        let q01 = self.p01;
        let q02 = self.p02;
        let q03 = self.p03;
        let q10 = self.p10;
        let q11 = self.p11;
        let q12 = self.p12;
        let q13 = self.p13;
        let q20 = self.p20;
        let q21 = self.p21;
        let q22 = self.p22;
        let q23 = self.p23;
        let q30 = self.p30;
        let q31 = self.p31;
        let q32 = self.p32;
        let q33 = self.p33;
        self.p00 = ikh_row(KSCALE - k00, -k01, q00, q10);
        self.p01 = ikh_row(KSCALE - k00, -k01, q01, q11);
        self.p02 = ikh_row(KSCALE - k00, -k01, q02, q12);
        self.p03 = ikh_row(KSCALE - k00, -k01, q03, q13);
        self.p10 = ikh_row(-k10, KSCALE - k11, q00, q10);
        self.p11 = ikh_row(-k10, KSCALE - k11, q01, q11);
        self.p12 = ikh_row(-k10, KSCALE - k11, q02, q12);
        self.p13 = ikh_row(-k10, KSCALE - k11, q03, q13);
        self.p20 = cadd_exec(ikh_row(-k20, -k21, q00, q10), q20, COV_CAP);
        self.p21 = cadd_exec(ikh_row(-k20, -k21, q01, q11), q21, COV_CAP);
        self.p22 = cadd_exec(ikh_row(-k20, -k21, q02, q12), q22, COV_CAP);
        self.p23 = cadd_exec(ikh_row(-k20, -k21, q03, q13), q23, COV_CAP);
        self.p30 = cadd_exec(ikh_row(-k30, -k31, q00, q10), q30, COV_CAP);
        self.p31 = cadd_exec(ikh_row(-k30, -k31, q01, q11), q31, COV_CAP);
        self.p32 = cadd_exec(ikh_row(-k30, -k31, q02, q12), q32, COV_CAP);
        self.p33 = cadd_exec(ikh_row(-k30, -k31, q03, q13), q33, COV_CAP);

        self.update_count = if self.update_count < u64::MAX {
            self.update_count + 1
        } else {
            self.update_count
        };
        proof {
            let cor = spec_correct(
                pred,
                old(self).spec_measurement_noise(),
                mx_upx as int,
                my_upx as int,
            );
            assert(self.model().p =~= cor.p);
            assert(self.model() == cor);
        }
        (self.px, self.py)
    }

    /// Current position estimate in micro-pixels.
    pub fn position(&self) -> (r: (i64, i64))
        ensures
            (r.0 as int, r.1 as int) == self.spec_position(),
    {
        (self.px, self.py)
    }

    /// Current velocity estimate in micro-pixels per second.
    pub fn velocity(&self) -> (r: (i64, i64))
        ensures
            (r.0 as int, r.1 as int) == self.spec_velocity(),
    {
        (self.vx, self.vy)
    }

    /// Current state vector `(x, y, vx, vy)`.
    pub fn state(&self) -> (r: (i64, i64, i64, i64))
        ensures
            (r.0 as int, r.1 as int) == self.spec_position(),
            (r.2 as int, r.3 as int) == self.spec_velocity(),
    {
        (self.px, self.py, self.vx, self.vy)
    }

    pub fn is_initialized(&self) -> (r: bool)
        ensures
            r == self.spec_initialized(),
    {
        self.initialized
    }

    pub fn update_count(&self) -> (r: u64)
        ensures
            r as int == self.spec_update_count(),
    {
        self.update_count
    }

    /// Sets the timestep in microseconds, clamped into `[1, 10^7]`.
    pub fn set_dt(&mut self, dt_us: i64)
        requires
            old(self).wf(),
        ensures
            final(self).wf(),
            final(self).spec_dt() == (if dt_us < 1 {
                1int
            } else if dt_us > 10_000_000 {
                10_000_000int
            } else {
                dt_us as int
            }),
            final(self).spec_position() == old(self).spec_position(),
            final(self).spec_initialized() == old(self).spec_initialized(),
            final(self).spec_update_count() == old(self).spec_update_count(),
    {
        self.dt_us = if dt_us < 1 {
            1
        } else if dt_us > 10_000_000 {
            10_000_000
        } else {
            dt_us
        };
    }
}

impl Default for KalmanTracker {
    fn default() -> (r: KalmanTracker)
        ensures
            r.wf(),
            !r.spec_initialized(),
    {
        KalmanTracker::new(10_000, 100_000)
    }
}

/// One entry of the scaled inverse innovation matrix, clamped.
fn sinv_entry(num: i64, det: i128) -> (r: i64)
    requires
        -2_000_000_000_000_000 <= num <= 2_000_000_000_000_000,
        det >= 100 || det <= -100,
        -2_000_000_000_000_000_000_000_000_000_000i128 <= det
            <= 2_000_000_000_000_000_000_000_000_000_000i128,
    ensures
        r == sinv_of(num as int, det as int),
        -1_000_000_000_000 <= r <= 1_000_000_000_000,
{
    let nm: i128 = if num >= 0 {
        num as i128
    } else {
        -(num as i128)
    };
    let dm: i128 = if det >= 0 {
        det
    } else {
        -det
    };
    proof {
        assert(nm * 1_000_000_000_000i128 <= 2_000_000_000_000_000_000_000_000_000i128 && 0 <= nm
            * 1_000_000_000_000i128) by (nonlinear_arith)
            requires
                0 <= nm <= 2_000_000_000_000_000i128,
        ;
        assert(nm as int == iabs(num as int) && dm as int == iabs(det as int));
    }
    let mag: i128 = nm * 1_000_000_000_000i128 / dm;
    let mag_c: i128 = if mag > 1_000_000_000_000i128 {
        1_000_000_000_000i128
    } else {
        mag
    };
    if (num < 0) != (det < 0) {
        -(mag_c as i64)
    } else {
        mag_c as i64
    }
}

/// One Kalman gain entry `(pa * sa + pb * sb) / KSCALE`, clamped.
fn gain(pa: i64, sa: i64, pb: i64, sb: i64) -> (r: i64)
    requires
        -1_000_000_000_000_000 <= pa <= 1_000_000_000_000_000,
        -1_000_000_000_000 <= sa <= 1_000_000_000_000,
        -1_000_000_000_000_000 <= pb <= 1_000_000_000_000_000,
        -1_000_000_000_000 <= sb <= 1_000_000_000_000,
    ensures
        r == gain_of(pa as int, sa as int, pb as int, sb as int),
        -GAIN_CAP <= r <= GAIN_CAP,
{
    let ta: i128 = mul_signed(pa, sa);
    let tb: i128 = mul_signed(pb, sb);
    let sum: i128 = ta + tb;
    let sm: i128 = if sum >= 0 {
        sum
    } else {
        -sum
    };
    let mag: i128 = sm / (KSCALE as i128);
    let mag_c: i128 = if mag > GAIN_CAP as i128 {
        GAIN_CAP as i128
    } else {
        mag
    };
    if sum < 0 {
        -(mag_c as i64)
    } else {
        mag_c as i64
    }
}

/// Signed product of two bounded values, in `i128`.
fn mul_signed(a: i64, b: i64) -> (r: i128)
    requires
        -1_000_000_000_000_000 <= a <= 1_000_000_000_000_000,
        -1_000_000_000_000 <= b <= 1_000_000_000_000,
    ensures
        r == a * b,
        -1_000_000_000_000_000_000_000_000_000i128 <= r <= 1_000_000_000_000_000_000_000_000_000i128,
{
    let am: i128 = if a >= 0 {
        a as i128
    } else {
        -(a as i128)
    };
    let bm: i128 = if b >= 0 {
        b as i128
    } else {
        -(b as i128)
    };
    proof {
        assert(am * bm <= 1_000_000_000_000_000_000_000_000_000i128 && 0 <= am * bm)
            by (nonlinear_arith)
            requires
                0 <= am <= 1_000_000_000_000_000i128,
                0 <= bm <= 1_000_000_000_000i128,
        ;
        assert((a as int) * (b as int) == (if (a < 0) != (b < 0) {
            -((am as int) * (bm as int))
        } else {
            (am as int) * (bm as int)
        })) by (nonlinear_arith)
            requires
                am as int == (if a as int >= 0 {
                    a as int
                } else {
                    -(a as int)
                }),
                bm as int == (if b as int >= 0 {
                    b as int
                } else {
                    -(b as int)
                }),
        ;
    }
    let mag: i128 = am * bm;
    if (a < 0) != (b < 0) {
        -mag
    } else {
        mag
    }
}

/// One row entry of `(I - K H) P` on the measured block:
/// `(ca * qa + cb * qb) / KSCALE`, clamped.
fn ikh_row(ca: i64, cb: i64, qa: i64, qb: i64) -> (r: i64)
    requires
        -3_000_000 <= ca <= 3_000_000,
        -3_000_000 <= cb <= 3_000_000,
        -1_000_000_000_000_000 <= qa <= 1_000_000_000_000_000,
        -1_000_000_000_000_000 <= qb <= 1_000_000_000_000_000,
    ensures
        r == ikh_of(ca as int, cb as int, qa as int, qb as int),
        -COV_CAP <= r <= COV_CAP,
{
    let ta: i128 = mul_small(ca, qa);
    let tb: i128 = mul_small(cb, qb);
    let sum: i128 = ta + tb;
    let sm: i128 = if sum >= 0 {
        sum
    } else {
        -sum
    };
    let mag: i128 = sm / (KSCALE as i128);
    let mag_c: i128 = if mag > COV_CAP as i128 {
        COV_CAP as i128
    } else {
        mag
    };
    if sum < 0 {
        -(mag_c as i64)
    } else {
        mag_c as i64
    }
}

/// Signed product of a small coefficient and a covariance entry.
fn mul_small(c: i64, q: i64) -> (r: i128)
    requires
        -3_000_000 <= c <= 3_000_000,
        -1_000_000_000_000_000 <= q <= 1_000_000_000_000_000,
    ensures
        r == c * q,
        -3_000_000_000_000_000_000_000i128 <= r <= 3_000_000_000_000_000_000_000i128,
{
    let cm: i128 = if c >= 0 {
        c as i128
    } else {
        -(c as i128)
    };
    let qm: i128 = if q >= 0 {
        q as i128
    } else {
        -(q as i128)
    };
    proof {
        assert(cm * qm <= 3_000_000_000_000_000_000_000i128 && 0 <= cm * qm) by (nonlinear_arith)
            requires
                0 <= cm <= 3_000_000i128,
                0 <= qm <= 1_000_000_000_000_000i128,
        ;
        assert((c as int) * (q as int) == (if (c < 0) != (q < 0) {
            -((cm as int) * (qm as int))
        } else {
            (cm as int) * (qm as int)
        })) by (nonlinear_arith)
            requires
                cm as int == (if c as int >= 0 {
                    c as int
                } else {
                    -(c as int)
                }),
                qm as int == (if q as int >= 0 {
                    q as int
                } else {
                    -(q as int)
                }),
        ;
    }
    let mag: i128 = cm * qm;
    if (c < 0) != (q < 0) {
        -mag
    } else {
        mag
    }
}

} // verus!
