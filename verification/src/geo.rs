//! Geographic positions and spherical geometry in fixed point.
//!
//! A position stores latitude and longitude in microdegrees and altitude
//! in millimetres. Distances are in metres on a sphere of radius 6371 km,
//! computed with the haversine formula over the fixed-point circular
//! functions of [`crate::trig`].

use vstd::prelude::*;
use crate::kalman::{clamp_to, tz_div};
use crate::trig::{
    archav, archav_spec, atan_frac, atan_frac_spec, hav, hav_spec, sin_half, sin_half_spec,
    sin_q, sin_poly, isqrt, sqrt_floor, SCALE, PI_N, HALF_PI_N, TWO_PI_N,
};

verus! {

/// One degree in microdegrees.
pub const UDEG: i64 = 1_000_000;

/// Mean Earth radius in metres.
pub const EARTH_RADIUS_M: u64 = 6_371_000;

/// Geographic position: latitude and longitude in microdegrees,
/// altitude in millimetres above sea level.
#[derive(Clone, Copy, PartialEq, Eq, Structural, Debug, Hash)]
pub struct GeoPos {
    pub lat_udeg: i64,
    pub lng_udeg: i64,
    pub alt_mm: i64,
}

impl GeoPos {
    /// A position is valid when its latitude is within +-90 degrees and
    /// its longitude within +-180 degrees.
    pub open spec fn valid(self) -> bool {
        -90_000_000 <= self.lat_udeg <= 90_000_000 && -180_000_000 <= self.lng_udeg
            <= 180_000_000
    }

    pub fn new(lat_udeg: i64, lng_udeg: i64, alt_mm: i64) -> (r: GeoPos)
        ensures
            r == (GeoPos { lat_udeg, lng_udeg, alt_mm }),
    {
        GeoPos { lat_udeg, lng_udeg, alt_mm }
    }

    /// Position at the given whole-degree-scaled coordinates, at sea level.
    pub fn from_udeg(lat_udeg: i64, lng_udeg: i64) -> (r: GeoPos)
        ensures
            r == (GeoPos { lat_udeg, lng_udeg, alt_mm: 0 }),
    {
        GeoPos { lat_udeg, lng_udeg, alt_mm: 0 }
    }

    pub fn origin() -> (r: GeoPos)
        ensures
            r == (GeoPos { lat_udeg: 0, lng_udeg: 0, alt_mm: 0 }),
    {
        GeoPos { lat_udeg: 0, lng_udeg: 0, alt_mm: 0 }
    }

    pub fn is_valid(&self) -> (r: bool)
        ensures
            r == self.valid(),
    {
        -90_000_000 <= self.lat_udeg && self.lat_udeg <= 90_000_000 && -180_000_000
            <= self.lng_udeg && self.lng_udeg <= 180_000_000
    }

    /// Haversine distance to `other` in metres.
    pub fn distance_m(&self, other: &GeoPos) -> (r: u64)
        requires
            self.valid(),
            other.valid(),
        ensures
            r == spec_distance_m(*self, *other),
            r <= 21_000_000,
    {
        distance_m_impl(self, other)
    }

    /// Initial bearing toward `other`, in millidegrees in `[0, 360000)`,
    /// pinned to the fixed-point spherical-triangle formula.
    pub fn bearing_mdeg(&self, other: &GeoPos) -> (r: u32)
        requires
            self.valid(),
            other.valid(),
        ensures
            r == spec_bearing_mdeg(*self, *other),
            r < 360_000,
    {
        bearing_mdeg_impl(self, other)
    }

    /// Linear interpolation toward `other`: each axis moves by the given
    /// fraction (in permille, clamped to `[0, 1000]`) of its difference.
    pub fn interpolate(&self, other: &GeoPos, fraction_permille: u32) -> (r: GeoPos)
        requires
            self.valid(),
            other.valid(),
            -1_000_000_000_000 <= self.alt_mm <= 1_000_000_000_000,
            -1_000_000_000_000 <= other.alt_mm <= 1_000_000_000_000,
        ensures
            r.lat_udeg == self.lat_udeg + interp_step(other.lat_udeg - self.lat_udeg, clamp_permille(fraction_permille as int)),
            r.lng_udeg == self.lng_udeg + interp_step(other.lng_udeg - self.lng_udeg, clamp_permille(fraction_permille as int)),
            r.alt_mm == self.alt_mm + interp_step(other.alt_mm - self.alt_mm, clamp_permille(fraction_permille as int)),
            fraction_permille == 0 ==> r == *self,
    {
        let f: i64 = if fraction_permille > 1000 {
            1000
        } else {
            fraction_permille as i64
        };
        let lat = self.lat_udeg + scaled_step(other.lat_udeg - self.lat_udeg, f);
        let lng = self.lng_udeg + scaled_step(other.lng_udeg - self.lng_udeg, f);
        let alt = self.alt_mm + scaled_step(other.alt_mm - self.alt_mm, f);
        proof {
            if fraction_permille == 0 {
                lemma_interp_zero(other.lat_udeg - self.lat_udeg);
                lemma_interp_zero(other.lng_udeg - self.lng_udeg);
                lemma_interp_zero(other.alt_mm - self.alt_mm);
            }
        }
        GeoPos { lat_udeg: lat, lng_udeg: lng, alt_mm: alt }
    }
}

/// Fraction clamped into `[0, 1000]` permille.
pub open spec fn clamp_permille(f: int) -> int {
    if f > 1000 {
        1000
    } else if f < 0 {
        0
    } else {
        f
    }
}

/// The signed move along one axis: `d * f / 1000`, rounded toward zero.
pub open spec fn interp_step(d: int, f: int) -> int {
    if d >= 0 {
        d * f / 1000
    } else {
        -((-d) * f / 1000)
    }
}

/// With a zero fraction, no axis moves.
pub proof fn lemma_interp_zero(d: int)
    ensures
        interp_step(d, 0) == 0,
{
    assert(d * 0 == 0) by (nonlinear_arith);
    assert((-d) * 0 == 0) by (nonlinear_arith);
    assert(0int / 1000 == 0) by (nonlinear_arith);
}

fn scaled_step(d: i64, f: i64) -> (r: i64)
    requires
        0 <= f <= 1000,
        -400_000_000_000_000 <= d <= 400_000_000_000_000,
    ensures
        r == interp_step(d as int, f as int),
        d >= 0 ==> 0 <= r <= d,
        d < 0 ==> d <= r <= 0,
{
    let mag: i64 = if d >= 0 {
        d
    } else {
        -d
    };
    proof {
        assert(0 <= (mag as int) * (f as int) <= 400_000_000_000_000_000int && (mag as int) * (
        f as int) / 1000 <= mag as int) by (nonlinear_arith)
            requires
                0 <= mag <= 400_000_000_000_000i64,
                0 <= f <= 1000i64,
        ;
    }
    let step: i64 = ((mag as i128) * (f as i128) / 1000) as i64;
    if d >= 0 {
        step
    } else {
        -step
    }
}

/// The absolute difference of two coordinates, as a nonnegative value.
pub open spec fn abs_diff(a: int, b: int) -> int {
    if a >= b {
        a - b
    } else {
        b - a
    }
}

/// Magnitude of a coordinate.
pub open spec fn abs_val(a: int) -> int {
    if a >= 0 {
        a
    } else {
        -a
    }
}

/// Microdegrees to nanoradians, on nonnegative magnitudes.
pub open spec fn nrad_of_udeg(u: int) -> int {
    u * (PI_N as int) / 180_000_000
}

pub(crate) fn udeg_to_nrad(u: u64) -> (r: u64)
    requires
        u <= 360_000_000,
    ensures
        r == nrad_of_udeg(u as int),
        r <= TWO_PI_N + 16,
        u == 0 ==> r == 0,
{
    proof {
        assert((u as int) * (PI_N as int) <= 360_000_000int * 3_141_592_654int && 0 <= (u as int)
            * (PI_N as int)) by (nonlinear_arith)
            requires
                0 <= u <= 360_000_000u64,
        ;
        if u == 0 {
            assert(0int * (PI_N as int) == 0) by (nonlinear_arith);
            assert(0int / 180_000_000int == 0) by (nonlinear_arith);
        }
    }
    let r: u128 = (u as u128) * (PI_N as u128) / 180_000_000;
    r as u64
}

/// Cosine of a latitude given in microdegrees of magnitude, scaled by `SCALE`.
pub open spec fn cos_lat_spec(u: int) -> int {
    let a = nrad_of_udeg(u);
    if a >= HALF_PI_N as int {
        0
    } else {
        sin_poly(HALF_PI_N as int - a)
    }
}

pub(crate) fn cos_lat(u: u64) -> (r: u64)
    requires
        u <= 90_000_000,
    ensures
        r == cos_lat_spec(u as int),
        r <= SCALE,
{
    let a: u64 = udeg_to_nrad(u);
    if a >= HALF_PI_N {
        0
    } else {
        sin_q(HALF_PI_N - a)
    }
}

/// The haversine "a" term for two valid positions, scaled by `SCALE` and
/// clamped to `SCALE`.
pub open spec fn hav_a_spec(a: GeoPos, b: GeoPos) -> int {
    let h1 = hav_spec(nrad_of_udeg(abs_diff(a.lat_udeg as int, b.lat_udeg as int)));
    let h2 = hav_spec(nrad_of_udeg(abs_diff(a.lng_udeg as int, b.lng_udeg as int)));
    let c1 = cos_lat_spec(abs_val(a.lat_udeg as int));
    let c2 = cos_lat_spec(abs_val(b.lat_udeg as int));
    let cc = c1 * c2 / (SCALE as int);
    let t = cc * h2 / (SCALE as int);
    let av = h1 + t;
    if av > SCALE as int {
        SCALE as int
    } else {
        av
    }
}

/// Haversine distance in metres between two valid positions.
pub open spec fn spec_distance_m(a: GeoPos, b: GeoPos) -> int {
    if a.lat_udeg == b.lat_udeg && a.lng_udeg == b.lng_udeg {
        0
    } else {
        (EARTH_RADIUS_M as int) * archav_spec(hav_a_spec(a, b)) / (SCALE as int)
    }
}

fn abs_diff_exec(a: i64, b: i64) -> (r: u64)
    requires
        -200_000_000 <= a <= 200_000_000,
        -200_000_000 <= b <= 200_000_000,
    ensures
        r == abs_diff(a as int, b as int),
{
    if a >= b {
        (a - b) as u64
    } else {
        (b - a) as u64
    }
}

fn distance_m_impl(a: &GeoPos, b: &GeoPos) -> (r: u64)
    requires
        a.valid(),
        b.valid(),
    ensures
        r == spec_distance_m(*a, *b),
        r <= 21_000_000,
{
    if a.lat_udeg == b.lat_udeg && a.lng_udeg == b.lng_udeg {
        return 0;
    }
    let dphi: u64 = abs_diff_exec(a.lat_udeg, b.lat_udeg);
    let dlam: u64 = abs_diff_exec(a.lng_udeg, b.lng_udeg);
    let h1: u64 = hav(udeg_to_nrad(dphi));
    let h2: u64 = hav(udeg_to_nrad(dlam));
    let la: u64 = if a.lat_udeg >= 0 {
        a.lat_udeg as u64
    } else {
        (-a.lat_udeg) as u64
    };
    let lb: u64 = if b.lat_udeg >= 0 {
        b.lat_udeg as u64
    } else {
        (-b.lat_udeg) as u64
    };
    let c1: u64 = cos_lat(la);
    let c2: u64 = cos_lat(lb);
    proof {
        assert(0 <= (c1 as int) * (c2 as int) <= 1_000_000_000_000_000_000int && (c1 as int) * (
        c2 as int) / 1_000_000_000 <= 1_000_000_000) by (nonlinear_arith)
            requires
                0 <= c1 <= 1_000_000_000u64,
                0 <= c2 <= 1_000_000_000u64,
        ;
    }
    let cc: u64 = ((c1 as u128) * (c2 as u128) / (SCALE as u128)) as u64;
    proof {
        assert(0 <= (cc as int) * (h2 as int) <= 1_000_000_000_000_000_000int && (cc as int) * (
        h2 as int) / 1_000_000_000 <= 1_000_000_000) by (nonlinear_arith)
            requires
                0 <= cc <= 1_000_000_000u64,
                0 <= h2 <= 1_000_000_000u64,
        ;
    }
    let t: u64 = ((cc as u128) * (h2 as u128) / (SCALE as u128)) as u64;
    let av: u64 = if h1 + t > SCALE {
        SCALE
    } else {
        h1 + t
    };
    let c: u64 = archav(av);
    proof {
        assert(0 <= (EARTH_RADIUS_M as int) * (c as int) <= 20_015_087_000_000_000int && (
        EARTH_RADIUS_M as int) * (c as int) / 1_000_000_000 <= 20_015_087) by (nonlinear_arith)
            requires
                0 <= c <= 3_141_592_654u64,
        ;
    }
    let d: u64 = ((EARTH_RADIUS_M as u128) * (c as u128) / (SCALE as u128)) as u64;
    d
}

/// The distance from a position to itself is zero.
pub proof fn lemma_distance_self_zero(a: GeoPos)
    ensures
        spec_distance_m(a, a) == 0,
{
}

/// The haversine distance is symmetric in its two arguments.
pub proof fn lemma_distance_symmetric(a: GeoPos, b: GeoPos)
    ensures
        spec_distance_m(a, b) == spec_distance_m(b, a),
{
    assert(abs_diff(a.lat_udeg as int, b.lat_udeg as int) == abs_diff(
        b.lat_udeg as int,
        a.lat_udeg as int,
    ));
    assert(abs_diff(a.lng_udeg as int, b.lng_udeg as int) == abs_diff(
        b.lng_udeg as int,
        a.lng_udeg as int,
    ));
    let c1 = cos_lat_spec(abs_val(a.lat_udeg as int));
    let c2 = cos_lat_spec(abs_val(b.lat_udeg as int));
    assert(c1 * c2 == c2 * c1) by (nonlinear_arith);
    assert(hav_a_spec(a, b) == hav_a_spec(b, a));
}

/// Product of two `SCALE`-scaled values, rescaled back, rounded toward
/// zero.
pub open spec fn rescale(a: int, b: int) -> int {
    tz_div(a * b, SCALE as int)
}

/// The signed sine of a latitude in microdegrees, scaled by `SCALE`.
pub open spec fn spec_sin_lat(lat_udeg: int) -> int {
    let a = nrad_of_udeg(abs_val(lat_udeg));
    let s = if a > HALF_PI_N as int {
        sin_poly(HALF_PI_N as int)
    } else {
        sin_poly(a)
    };
    if lat_udeg >= 0 {
        s
    } else {
        -s
    }
}

/// Sine on the full circle, scaled by `SCALE`.
pub open spec fn spec_sin_circle(x: int) -> int {
    if x <= PI_N as int {
        sin_half_spec(x)
    } else {
        -sin_half_spec(x - PI_N as int)
    }
}

/// Cosine on the full circle, scaled by `SCALE`.
pub open spec fn spec_cos_circle(x: int) -> int {
    if x <= HALF_PI_N as int {
        sin_poly(HALF_PI_N as int - x)
    } else if x <= PI_N as int + HALF_PI_N as int {
        -sin_half_spec(x - HALF_PI_N as int)
    } else {
        sin_poly(
            if x - PI_N as int - HALF_PI_N as int > HALF_PI_N as int {
                HALF_PI_N as int
            } else {
                x - PI_N as int - HALF_PI_N as int
            },
        )
    }
}

/// Four-quadrant arctangent in millidegrees, on `SCALE`-clamped
/// magnitudes.
pub open spec fn spec_atan2_mdeg(y: int, x: int) -> int {
    let ays = if abs_val(y) > SCALE as int {
        SCALE as int
    } else {
        abs_val(y)
    };
    let axs = if abs_val(x) > SCALE as int {
        SCALE as int
    } else {
        abs_val(x)
    };
    let base = atan_frac_spec(ays, axs);
    let base_mdeg = base * 180_000 / (PI_N as int);
    if x >= 0 && y >= 0 {
        base_mdeg
    } else if x < 0 && y >= 0 {
        180_000 - base_mdeg
    } else if x < 0 {
        -(180_000 - base_mdeg)
    } else {
        -base_mdeg
    }
}

/// The initial bearing from `a` toward `b` in millidegrees, over the
/// fixed-point spherical-triangle terms, normalized into `[0, 360000)`.
pub open spec fn spec_bearing_mdeg(a: GeoPos, b: GeoPos) -> int {
    let s1 = spec_sin_lat(a.lat_udeg as int);
    let c1 = cos_lat_spec(abs_val(a.lat_udeg as int));
    let s2 = spec_sin_lat(b.lat_udeg as int);
    let c2 = cos_lat_spec(abs_val(b.lat_udeg as int));
    let dl = b.lng_udeg - a.lng_udeg;
    let dl_nrad = nrad_of_udeg(abs_val(dl));
    let sdl = if dl >= 0 {
        spec_sin_circle(dl_nrad)
    } else {
        -spec_sin_circle(dl_nrad)
    };
    let cdl = spec_cos_circle(dl_nrad);
    let y = rescale(sdl, c2);
    let x = rescale(c1, s2) - rescale(rescale(s1, c2), cdl);
    let theta = spec_atan2_mdeg(y, x);
    let bm = if theta < 0 {
        theta + 360_000
    } else {
        theta
    };
    if bm >= 360_000 {
        0
    } else {
        bm
    }
}

fn bearing_mdeg_impl(a: &GeoPos, b: &GeoPos) -> (r: u32)
    requires
        a.valid(),
        b.valid(),
    ensures
        r == spec_bearing_mdeg(*a, *b),
        r < 360_000,
{
    // Signed fixed-point terms of the spherical bearing formula:
    // y = sin(dl) * cos(lat2), x = cos(lat1) * sin(lat2)
    //                              - sin(lat1) * cos(lat2) * cos(dl).
    let s1: i64 = sin_lat_signed(a.lat_udeg);
    let c1: i64 = cos_lat(if a.lat_udeg >= 0 {
        a.lat_udeg as u64
    } else {
        (-a.lat_udeg) as u64
    }) as i64;
    let s2: i64 = sin_lat_signed(b.lat_udeg);
    let c2: i64 = cos_lat(if b.lat_udeg >= 0 {
        b.lat_udeg as u64
    } else {
        (-b.lat_udeg) as u64
    }) as i64;
    let dl: i64 = b.lng_udeg - a.lng_udeg;
    let dl_mag: u64 = if dl >= 0 {
        dl as u64
    } else {
        (-dl) as u64
    };
    let dl_nrad: u64 = udeg_to_nrad(dl_mag);
    let sdl_mag: i64 = sin_circle(dl_nrad) as i64;
    let sdl: i64 = if dl >= 0 {
        sdl_mag
    } else {
        -sdl_mag
    };
    let cdl: i64 = cos_circle(dl_nrad);
    let y: i64 = mul_scaled(sdl, c2);
    let x: i64 = mul_scaled(c1, s2) - mul_scaled(mul_scaled(s1, c2), cdl);
    let theta_mdeg: i64 = atan2_mdeg(y, x);
    let b_mdeg: i64 = if theta_mdeg < 0 {
        theta_mdeg + 360_000
    } else {
        theta_mdeg
    };
    if b_mdeg >= 360_000 {
        0
    } else {
        b_mdeg as u32
    }
}

/// Product of two values scaled by `SCALE`, rescaled back, rounded toward zero.
pub(crate) fn mul_scaled(a: i64, b: i64) -> (r: i64)
    requires
        -2_000_000_000 <= a <= 2_000_000_000,
        -2_000_000_000 <= b <= 2_000_000_000,
    ensures
        r == rescale(a as int, b as int),
        -4_000_000_000 <= r <= 4_000_000_000,
        (-1_000_000_000 <= a <= 1_000_000_000 && -1_000_000_000 <= b <= 1_000_000_000)
            ==> -1_000_000_000 <= r <= 1_000_000_000,
        a == 0 ==> r == 0,
{
    let am: i128 = if a >= 0 {
        a as i128
    } else {
        -(a as i128)
    };
    let bm: i128 = if b >= 0 {
        b as i128
    } else {
        -(b as i128)
    };
    proof {
        assert(0 <= am * bm <= 4_000_000_000_000_000_000i128 && am * bm / 1_000_000_000
            <= 4_000_000_000i128) by (nonlinear_arith)
            requires
                0 <= am <= 2_000_000_000i128,
                0 <= bm <= 2_000_000_000i128,
        ;
    }
    proof {
        if -1_000_000_000 <= a <= 1_000_000_000 && -1_000_000_000 <= b <= 1_000_000_000 {
            assert(am * bm <= 1_000_000_000_000_000_000i128 && am * bm / 1_000_000_000
                <= 1_000_000_000i128) by (nonlinear_arith)
                requires
                    0 <= am <= 1_000_000_000i128,
                    0 <= bm <= 1_000_000_000i128,
            ;
        }
    }
    proof {
        if a == 0 {
            assert(am * bm == 0) by (nonlinear_arith)
                requires
                    am == 0,
            ;
            assert(0int / 1_000_000_000int == 0) by (nonlinear_arith);
        }
        assert((a as int) * (b as int) == (if (a < 0) != (b < 0) {
            -((am as int) * (bm as int))
        } else {
            (am as int) * (bm as int)
        })) by (nonlinear_arith)
            requires
                am as int == (if a as int >= 0 {
                    a as int
                } else {
                    -(a as int)
                }),
                bm as int == (if b as int >= 0 {
                    b as int
                } else {
                    -(b as int)
                }),
        ;
    }
    let mag: i128 = am * bm / 1_000_000_000;
    let neg: bool = (a < 0) != (b < 0);
    if neg {
        -(mag as i64)
    } else {
        mag as i64
    }
}

/// Signed sine of a latitude in microdegrees.
fn sin_lat_signed(lat_udeg: i64) -> (r: i64)
    requires
        -90_000_000 <= lat_udeg <= 90_000_000,
    ensures
        r == spec_sin_lat(lat_udeg as int),
        -1_000_000_000 <= r <= 1_000_000_000,
{
    let mag: u64 = if lat_udeg >= 0 {
        lat_udeg as u64
    } else {
        (-lat_udeg) as u64
    };
    let a: u64 = udeg_to_nrad(mag);
    let s: u64 = if a > HALF_PI_N {
        sin_q(HALF_PI_N)
    } else {
        sin_q(a)
    };
    if lat_udeg >= 0 {
        s as i64
    } else {
        -(s as i64)
    }
}

/// Sine on the full circle `[0, 2*pi]`, signed.
pub(crate) fn sin_circle(x: u64) -> (r: i64)
    requires
        x <= TWO_PI_N + 16,
    ensures
        r == spec_sin_circle(x as int),
        -1_000_000_000 <= r <= 1_000_000_000,
{
    if x <= PI_N {
        sin_half(x) as i64
    } else {
        -(sin_half(x - PI_N) as i64)
    }
}

/// Cosine on the full circle `[0, 2*pi]`, signed.
pub(crate) fn cos_circle(x: u64) -> (r: i64)
    requires
        x <= TWO_PI_N + 16,
    ensures
        r == spec_cos_circle(x as int),
        -1_000_000_000 <= r <= 1_000_000_000,
{
    if x <= HALF_PI_N {
        sin_q(HALF_PI_N - x) as i64
    } else if x <= PI_N + HALF_PI_N {
        -(sin_half(x - HALF_PI_N) as i64)
    } else {
        sin_q(if x - PI_N - HALF_PI_N > HALF_PI_N {
            HALF_PI_N
        } else {
            x - PI_N - HALF_PI_N
        }) as i64
    }
}

/// Four-quadrant arctangent in millidegrees, in `(-180000, 180000]`.
fn atan2_mdeg(y: i64, x: i64) -> (r: i64)
    requires
        -4_000_000_000 <= y <= 4_000_000_000,
        -4_000_000_000 <= x <= 4_000_000_000,
    ensures
        r == spec_atan2_mdeg(y as int, x as int),
        -180_000 <= r <= 180_000,
{
    let ay: u64 = if y >= 0 {
        y as u64
    } else {
        (-y) as u64
    };
    let ax: u64 = if x >= 0 {
        x as u64
    } else {
        (-x) as u64
    };
    let ays: u64 = if ay > SCALE {
        SCALE
    } else {
        ay
    };
    let axs: u64 = if ax > SCALE {
        SCALE
    } else {
        ax
    };
    let base: u64 = atan_frac(ays, axs);
    proof {
        assert(0 <= (base as int) * 180_000 <= 282_743_340_860_000int && (base as int) * 180_000
            / (PI_N as int) <= 90_000) by (nonlinear_arith)
            requires
                0 <= base <= 1_570_796_327u64,
        ;
    }
    let base_mdeg: i64 = ((base as i128) * 180_000 / (PI_N as i128)) as i64;
    if x >= 0 && y >= 0 {
        base_mdeg
    } else if x < 0 && y >= 0 {
        180_000 - base_mdeg
    } else if x < 0 {
        -(180_000 - base_mdeg)
    } else {
        -base_mdeg
    }
}

/// Geographic bounding box for area queries.
#[derive(Clone, Copy, PartialEq, Eq, Structural, Debug)]
pub struct GeoBounds {
    pub min_lat_udeg: i64,
    pub max_lat_udeg: i64,
    pub min_lng_udeg: i64,
    pub max_lng_udeg: i64,
}

impl GeoBounds {
    pub fn new(min_lat_udeg: i64, max_lat_udeg: i64, min_lng_udeg: i64, max_lng_udeg: i64) -> (r:
        GeoBounds)
        ensures
            r == (GeoBounds { min_lat_udeg, max_lat_udeg, min_lng_udeg, max_lng_udeg }),
    {
        GeoBounds { min_lat_udeg, max_lat_udeg, min_lng_udeg, max_lng_udeg }
    }

    /// Whether a position lies inside the box, borders included.
    pub open spec fn spec_contains(self, p: GeoPos) -> bool {
        self.min_lat_udeg <= p.lat_udeg <= self.max_lat_udeg && self.min_lng_udeg <= p.lng_udeg
            <= self.max_lng_udeg
    }

    pub fn contains(&self, position: &GeoPos) -> (r: bool)
        ensures
            r == self.spec_contains(*position),
    {
        position.lat_udeg >= self.min_lat_udeg && position.lat_udeg <= self.max_lat_udeg
            && position.lng_udeg >= self.min_lng_udeg && position.lng_udeg <= self.max_lng_udeg
    }

    /// The centre of the box, rounded toward zero on each axis.
    pub fn center(&self) -> (r: GeoPos)
        requires
            -200_000_000 <= self.min_lat_udeg <= 200_000_000,
            -200_000_000 <= self.max_lat_udeg <= 200_000_000,
            -200_000_000 <= self.min_lng_udeg <= 200_000_000,
            -200_000_000 <= self.max_lng_udeg <= 200_000_000,
        ensures
            r.lat_udeg == half_toward_zero(self.min_lat_udeg + self.max_lat_udeg),
            r.lng_udeg == half_toward_zero(self.min_lng_udeg + self.max_lng_udeg),
            r.alt_mm == 0,
    {
        GeoPos {
            lat_udeg: half_exec(self.min_lat_udeg + self.max_lat_udeg),
            lng_udeg: half_exec(self.min_lng_udeg + self.max_lng_udeg),
            alt_mm: 0,
        }
    }
}

/// Half of a sum, rounded toward zero.
pub open spec fn half_toward_zero(s: int) -> int {
    if s >= 0 {
        s / 2
    } else {
        -((-s) / 2)
    }
}

fn half_exec(s: i64) -> (r: i64)
    requires
        -400_000_000 <= s <= 400_000_000,
    ensures
        r == half_toward_zero(s as int),
{
    if s >= 0 {
        s / 2
    } else {
        -((-s) / 2)
    }
}


/// One ray-casting edge test: whether the horizontal ray from `p` crosses
/// the edge from `vi` to `vj`. The edge is crossed when the two endpoints
/// straddle the ray's longitude and the point lies below the edge at its
/// longitude (stated by cross-multiplication, exactly).
pub open spec fn spec_edge_crossing(vi: GeoPos, vj: GeoPos, p: GeoPos) -> bool {
    ((vi.lng_udeg > p.lng_udeg) != (vj.lng_udeg > p.lng_udeg)) && {
        let lhs = (p.lat_udeg - vi.lat_udeg) * (vj.lng_udeg - vi.lng_udeg);
        let rhs = (vj.lat_udeg - vi.lat_udeg) * (p.lng_udeg - vi.lng_udeg);
        if vj.lng_udeg > vi.lng_udeg {
            lhs < rhs
        } else {
            lhs > rhs
        }
    }
}

/// Crossing parity over the first `n` vertices, each edge taken from a
/// vertex to its predecessor (the last vertex precedes the first).
pub open spec fn spec_inside_upto(vs: Seq<GeoPos>, p: GeoPos, n: int) -> bool
    decreases n,
{
    if n <= 0 {
        false
    } else {
        let j = if n == 1 {
            vs.len() - 1
        } else {
            n - 2
        };
        spec_inside_upto(vs, p, n - 1) != spec_edge_crossing(vs[n - 1], vs[j], p)
    }
}

/// Geofence polygon for boundary checks.
#[derive(Debug)]
pub struct Geofence {
    pub name: String,
    pub vertices: Vec<GeoPos>,
    pub max_altitude_mm: Option<i64>,
}

impl Geofence {
    /// Whether a position is inside the fence: with fewer than three
    /// vertices the fence contains nothing; above the altitude ceiling
    /// nothing is contained; otherwise by ray-casting parity.
    pub open spec fn spec_contains(self, p: GeoPos) -> bool {
        &&& self.vertices@.len() >= 3
        &&& (self.max_altitude_mm matches Some(m) ==> p.alt_mm <= m)
        &&& spec_inside_upto(self.vertices@, p, self.vertices@.len() as int)
    }

    pub fn new(name: &str, vertices: Vec<GeoPos>) -> (r: Geofence)
        ensures
            r.name@ == name@,
            r.vertices == vertices,
            r.max_altitude_mm is None,
    {
        Geofence { name: name.to_owned(), vertices, max_altitude_mm: None }
    }

    /// Ray-casting containment.
    pub fn contains(&self, position: &GeoPos) -> (r: bool)
        requires
            position.valid(),
            forall|i: int| 0 <= i < self.vertices@.len() ==> (#[trigger] self.vertices@[i]).valid(),
        ensures
            r == self.spec_contains(*position),
            self.vertices@.len() < 3 ==> !r,
    {
        let n: usize = self.vertices.len();
        if n < 3 {
            return false;
        }
        if let Some(max_alt) = self.max_altitude_mm {
            if position.alt_mm > max_alt {
                return false;
            }
        }
        let mut inside: bool = false;
        let mut i: usize = 0;
        while i < n
            invariant
                i <= n,
                3 <= n,
                n == self.vertices@.len(),
                position.valid(),
                forall|k: int|
                    0 <= k < self.vertices@.len() ==> (#[trigger] self.vertices@[k]).valid(),
                inside == spec_inside_upto(self.vertices@, *position, i as int),
            decreases n - i,
        {
            let j: usize = if i == 0 {
                n - 1
            } else {
                i - 1
            };
            let vi: GeoPos = self.vertices[i];
            let vj: GeoPos = self.vertices[j];
            if edge_crossing(&vi, &vj, position) {
                inside = !inside;
            }
            i += 1;
        }
        inside
    }

    /// The bounding box of the fence: the extremes of its vertices; an
    /// empty fence yields the degenerate all-zero box.
    pub fn bounds(&self) -> (r: GeoBounds)
        ensures
            self.vertices@.len() == 0 ==> r == (GeoBounds {
                min_lat_udeg: 0,
                max_lat_udeg: 0,
                min_lng_udeg: 0,
                max_lng_udeg: 0,
            }),
            forall|i: int|
                0 <= i < self.vertices@.len() ==> (r.min_lat_udeg <= (
                #[trigger] self.vertices@[i]).lat_udeg <= r.max_lat_udeg && r.min_lng_udeg
                    <= self.vertices@[i].lng_udeg <= r.max_lng_udeg),
    {
        let n: usize = self.vertices.len();
        if n == 0 {
            return GeoBounds { min_lat_udeg: 0, max_lat_udeg: 0, min_lng_udeg: 0, max_lng_udeg: 0 };
        }
        let first: GeoPos = self.vertices[0];
        let mut min_lat: i64 = first.lat_udeg;
        let mut max_lat: i64 = first.lat_udeg;
        let mut min_lng: i64 = first.lng_udeg;
        let mut max_lng: i64 = first.lng_udeg;
        let mut i: usize = 1;
        while i < n
            invariant
                1 <= i <= n,
                n == self.vertices@.len(),
                forall|k: int|
                    0 <= k < i ==> (min_lat <= (#[trigger] self.vertices@[k]).lat_udeg <= max_lat
                        && min_lng <= self.vertices@[k].lng_udeg <= max_lng),
            decreases n - i,
        {
            let v: GeoPos = self.vertices[i];
            if v.lat_udeg < min_lat {
                min_lat = v.lat_udeg;
            }
            if v.lat_udeg > max_lat {
                max_lat = v.lat_udeg;
            }
            if v.lng_udeg < min_lng {
                min_lng = v.lng_udeg;
            }
            if v.lng_udeg > max_lng {
                max_lng = v.lng_udeg;
            }
            i += 1;
        }
        GeoBounds {
            min_lat_udeg: min_lat,
            max_lat_udeg: max_lat,
            min_lng_udeg: min_lng,
            max_lng_udeg: max_lng,
        }
    }
}

/// Executable edge-crossing test, by exact cross-multiplication.
fn edge_crossing(vi: &GeoPos, vj: &GeoPos, p: &GeoPos) -> (r: bool)
    requires
        vi.valid(),
        vj.valid(),
        p.valid(),
    ensures
        r == spec_edge_crossing(*vi, *vj, *p),
{
    if (vi.lng_udeg > p.lng_udeg) == (vj.lng_udeg > p.lng_udeg) {
        return false;
    }
    proof {
        assert((p.lat_udeg as int - vi.lat_udeg as int) * (vj.lng_udeg as int - vi.lng_udeg as int)
            <= 160_000_000_000_000_000int && (p.lat_udeg as int - vi.lat_udeg as int) * (
        vj.lng_udeg as int - vi.lng_udeg as int) >= -160_000_000_000_000_000int)
            by (nonlinear_arith)
            requires
                -400_000_000 <= (p.lat_udeg as int - vi.lat_udeg as int) <= 400_000_000,
                -400_000_000 <= (vj.lng_udeg as int - vi.lng_udeg as int) <= 400_000_000,
        ;
        assert((vj.lat_udeg as int - vi.lat_udeg as int) * (p.lng_udeg as int - vi.lng_udeg as int)
            <= 160_000_000_000_000_000int && (vj.lat_udeg as int - vi.lat_udeg as int) * (
        p.lng_udeg as int - vi.lng_udeg as int) >= -160_000_000_000_000_000int)
            by (nonlinear_arith)
            requires
                -400_000_000 <= (vj.lat_udeg as int - vi.lat_udeg as int) <= 400_000_000,
                -400_000_000 <= (p.lng_udeg as int - vi.lng_udeg as int) <= 400_000_000,
        ;
    }
    let lhs: i64 = (p.lat_udeg - vi.lat_udeg) * (vj.lng_udeg - vi.lng_udeg);
    let rhs: i64 = (vj.lat_udeg - vi.lat_udeg) * (p.lng_udeg - vi.lng_udeg);
    if vj.lng_udeg > vi.lng_udeg {
        lhs < rhs
    } else {
        lhs > rhs
    }
}

/// Latitude half-width of a box of the given radius, in microdegrees:
/// one degree is about 111 km.
pub open spec fn spec_lat_delta_udeg(radius_m: int) -> int {
    radius_m * 1000 / 111
}

impl GeoBounds {
    /// The box of the given radius around a centre: the latitude
    /// half-width is the radius over 111 km per degree; the longitude
    /// half-width widens by the cosine of the latitude, and falls back
    /// to the latitude width at the poles.
    pub fn from_center(center: &GeoPos, radius_m: u64) -> (r: GeoBounds)
        requires
            center.valid(),
            radius_m <= 21_000_000,
        ensures
            r.min_lat_udeg == center.lat_udeg - spec_lat_delta_udeg(radius_m as int),
            r.max_lat_udeg == center.lat_udeg + spec_lat_delta_udeg(radius_m as int),
            r.min_lng_udeg <= center.lng_udeg <= r.max_lng_udeg,
    {
        proof {
            assert(0 <= (radius_m as int) * 1000 <= 21_000_000_000int && 0 <= (radius_m as int)
                * 1000 / 111 <= 200_000_000int) by (nonlinear_arith)
                requires
                    0 <= radius_m as int <= 21_000_000int,
            ;
        }
        let lat_delta: i64 = ((radius_m as i64) * 1000) / 111;
        let lat_mag: u64 = if center.lat_udeg >= 0 {
            center.lat_udeg as u64
        } else {
            (-center.lat_udeg) as u64
        };
        let c1: u64 = cos_lat(lat_mag);
        let lng_delta: i64 = if c1 == 0 {
            lat_delta
        } else {
            widen_by_cos(lat_delta, c1)
        };
        GeoBounds {
            min_lat_udeg: center.lat_udeg - lat_delta,
            max_lat_udeg: center.lat_udeg + lat_delta,
            min_lng_udeg: center.lng_udeg - lng_delta,
            max_lng_udeg: center.lng_udeg + lng_delta,
        }
    }
}

/// Widens a latitude half-width by the inverse cosine of the latitude.
fn widen_by_cos(delta_udeg: i64, c1: u64) -> (r: i64)
    requires
        0 <= delta_udeg <= 200_000_000,
        1 <= c1 <= 1_000_000_000,
    ensures
        0 <= r <= 400_000_000_000_000,
{
    proof {
        assert(0 <= (delta_udeg as int) * 1_000_000_000 <= 200_000_000_000_000_000int)
            by (nonlinear_arith)
            requires
                0 <= delta_udeg as int <= 200_000_000int,
        ;
        assert(0 <= (delta_udeg as int) * 1_000_000_000 / (c1 as int) <= 400_000_000_000_000_000int)
            by (nonlinear_arith)
            requires
                0 <= (delta_udeg as int) * 1_000_000_000 <= 200_000_000_000_000_000int,
                1 <= c1 as int,
        ;
    }
    let wide: i128 = (delta_udeg as i128) * 1_000_000_000 / (c1 as i128);
    if wide > 400_000_000_000_000i128 {
        400_000_000_000_000
    } else {
        wide as i64
    }
}


/// Four-quadrant arctangent in microdegrees, on `SCALE`-clamped
/// magnitudes.
pub open spec fn spec_atan2_udeg(y: int, x: int) -> int {
    let ays = if abs_val(y) > SCALE as int {
        SCALE as int
    } else {
        abs_val(y)
    };
    let axs = if abs_val(x) > SCALE as int {
        SCALE as int
    } else {
        abs_val(x)
    };
    let base = atan_frac_spec(ays, axs);
    let base_udeg = base * 180_000_000 / (PI_N as int);
    if x >= 0 && y >= 0 {
        base_udeg
    } else if x < 0 && y >= 0 {
        180_000_000 - base_udeg
    } else if x < 0 {
        -(180_000_000 - base_udeg)
    } else {
        -base_udeg
    }
}

/// Arcsine of a `SCALE`-scaled value in nanoradians: the arctangent of
/// the value over the matching square-rooted cosine.
pub open spec fn spec_asin_nrad(v: int) -> int {
    let mag = abs_val(v);
    let c = sqrt_floor((SCALE as int - mag) * (SCALE as int + mag));
    let cc = if c > SCALE as int {
        SCALE as int
    } else {
        c
    };
    let ang = atan_frac_spec(mag, cc);
    if v >= 0 {
        ang
    } else {
        -ang
    }
}

/// Four-quadrant arctangent in microdegrees, in `[-180000000, 180000000]`.
pub(crate) fn atan2_udeg(y: i64, x: i64) -> (r: i64)
    requires
        -4_000_000_000 <= y <= 4_000_000_000,
        -4_000_000_000 <= x <= 4_000_000_000,
    ensures
        r == spec_atan2_udeg(y as int, x as int),
        -180_000_000 <= r <= 180_000_000,
{
    let ay: u64 = if y >= 0 {
        y as u64
    } else {
        (-y) as u64
    };
    let ax: u64 = if x >= 0 {
        x as u64
    } else {
        (-x) as u64
    };
    let ays: u64 = if ay > SCALE {
        SCALE
    } else {
        ay
    };
    let axs: u64 = if ax > SCALE {
        SCALE
    } else {
        ax
    };
    let base: u64 = atan_frac(ays, axs);
    proof {
        assert(0 <= (base as int) * 180_000_000 <= 282_743_338_860_000_000int && (base as int)
            * 180_000_000 / (PI_N as int) <= 90_000_000) by (nonlinear_arith)
            requires
                0 <= base <= 1_570_796_327u64,
        ;
    }
    let base_udeg: i64 = ((base as i128) * 180_000_000 / (PI_N as i128)) as i64;
    if x >= 0 && y >= 0 {
        base_udeg
    } else if x < 0 && y >= 0 {
        180_000_000 - base_udeg
    } else if x < 0 {
        -(180_000_000 - base_udeg)
    } else {
        -base_udeg
    }
}

/// Arcsine of a `SCALE`-scaled value, in nanoradians within a quarter
/// turn: the angle whose sine over the matching cosine has the given
/// ratio.
pub(crate) fn asin_nrad(v: i64) -> (r: i64)
    requires
        -1_000_000_000 <= v <= 1_000_000_000,
    ensures
        r == spec_asin_nrad(v as int),
        -1_570_796_327 <= r <= 1_570_796_327,
{
    let mag: u64 = if v >= 0 {
        v as u64
    } else {
        (-v) as u64
    };
    proof {
        assert(0 <= (SCALE as int - mag as int) * (SCALE as int + mag as int)
            <= 1_000_000_000_000_000_000int) by (nonlinear_arith)
            requires
                0 <= mag <= 1_000_000_000u64,
        ;
    }
    let csq: u128 = ((SCALE - mag) as u128) * ((SCALE + mag) as u128);
    let c: u128 = isqrt(csq);
    let c_clamped: u64 = if c > SCALE as u128 {
        SCALE
    } else {
        c as u64
    };
    let angle: u64 = atan_frac(mag, c_clamped);
    if v >= 0 {
        angle as i64
    } else {
        -(angle as i64)
    }
}

/// The destination of a spherical step: the angular distance from the
/// metre distance, the new latitude from the spherical law of cosines,
/// and the longitude step from the four-quadrant arctangent, all in the
/// fixed-point terms the kernel computes.
pub open spec fn spec_destination(p: GeoPos, distance_m: int, bearing_mdeg: int) -> GeoPos {
    let delta_raw = distance_m * 1_000_000_000 / 6_371_000;
    let delta = if delta_raw > TWO_PI_N as int {
        TWO_PI_N as int
    } else {
        delta_raw
    };
    let sd = spec_sin_circle(delta);
    let cd = spec_cos_circle(delta);
    let s1 = spec_sin_lat(p.lat_udeg as int);
    let c1 = cos_lat_spec(abs_val(p.lat_udeg as int));
    let theta = nrad_of_udeg(bearing_mdeg * 1000);
    let st = spec_sin_circle(theta);
    let ct = spec_cos_circle(theta);
    let sin_lat2 = clamp_to(rescale(s1, cd) + rescale(rescale(c1, sd), ct), 1_000_000_000);
    let lat2_nrad = spec_asin_nrad(sin_lat2);
    let lat2_udeg = tz_div(lat2_nrad * 180_000_000, PI_N as int);
    let ynum = rescale(rescale(st, sd), c1);
    let xnum = cd - rescale(s1, sin_lat2);
    let dlng = spec_atan2_udeg(ynum, xnum);
    let lng2_raw = p.lng_udeg + dlng;
    let lng2 = if lng2_raw > 180_000_000 {
        lng2_raw - 360_000_000
    } else if lng2_raw < -180_000_000 {
        lng2_raw + 360_000_000
    } else {
        lng2_raw
    };
    GeoPos { lat_udeg: lat2_udeg as i64, lng_udeg: lng2 as i64, alt_mm: p.alt_mm }
}

impl GeoPos {
    /// The position reached by travelling the given distance on the
    /// given initial bearing, on the spherical model. Altitude is kept.
    pub fn destination(&self, distance_m: u64, bearing_mdeg: u32) -> (r: GeoPos)
        requires
            self.valid(),
            distance_m <= 21_000_000,
            bearing_mdeg < 360_000,
        ensures
            r == spec_destination(*self, distance_m as int, bearing_mdeg as int),
            r.valid(),
            r.alt_mm == self.alt_mm,
    {
        // Angular distance in nanoradians.
        proof {
            assert(0 <= (distance_m as int) * 1_000_000_000 <= 21_000_000_000_000_000int && (
            distance_m as int) * 1_000_000_000 / 6_371_000 <= 3_296_500_000int)
                by (nonlinear_arith)
                requires
                    0 <= distance_m as int <= 21_000_000int,
            ;
        }
        let delta_raw: i128 = (distance_m as i128) * 1_000_000_000 / 6_371_000;
        let delta: u64 = if delta_raw > TWO_PI_N as i128 {
            TWO_PI_N
        } else {
            delta_raw as u64
        };
        let sd: i64 = sin_circle(delta);
        let cd: i64 = cos_circle(delta);

        let s1: i64 = sin_lat_signed(self.lat_udeg);
        let c1: i64 = cos_lat(
            if self.lat_udeg >= 0 {
                self.lat_udeg as u64
            } else {
                (-self.lat_udeg) as u64
            },
        ) as i64;
        let theta: u64 = udeg_to_nrad((bearing_mdeg as u64) * 1000);
        let st: i64 = sin_circle(theta);
        let ct: i64 = cos_circle(theta);

        // sin(lat2) = sin(lat1) cos(d) + cos(lat1) sin(d) cos(bearing).
        let term1: i64 = mul_scaled(s1, cd);
        let term2: i64 = mul_scaled(mul_scaled(c1, sd), ct);
        let sin_lat2: i64 = clamp_unit(term1 + term2);
        let lat2_nrad: i64 = asin_nrad(sin_lat2);

        proof {
            assert(-90_000_000int <= (1_570_796_327int) * 180_000_000 / (PI_N as int)
                && (1_570_796_327int) * 180_000_000 / (PI_N as int) <= 90_000_000int)
                by (nonlinear_arith);
            assert(-282_743_338_860_000_000int <= (lat2_nrad as int) * 180_000_000
                <= 282_743_338_860_000_000int && -90_000_000int <= (lat2_nrad as int) * 180_000_000
                / (PI_N as int) <= 90_000_000int) by (nonlinear_arith)
                requires
                    -1_570_796_327 <= lat2_nrad as int <= 1_570_796_327,
            ;
        }
        let lat2_udeg: i64 = ((lat2_nrad as i128) * 180_000_000 / (PI_N as i128)) as i64;

        // lng2 = lng1 + atan2(sin(b) sin(d) cos(lat1),
        //                     cos(d) - sin(lat1) sin(lat2)).
        let ynum: i64 = mul_scaled(mul_scaled(st, sd), c1);
        let xnum: i64 = cd - mul_scaled(s1, sin_lat2);
        let dlng_udeg: i64 = atan2_udeg(ynum, xnum);
        let lng2_raw: i64 = self.lng_udeg + dlng_udeg;
        let lng2_udeg: i64 = if lng2_raw > 180_000_000 {
            lng2_raw - 360_000_000
        } else if lng2_raw < -180_000_000 {
            lng2_raw + 360_000_000
        } else {
            lng2_raw
        };
        GeoPos { lat_udeg: lat2_udeg, lng_udeg: lng2_udeg, alt_mm: self.alt_mm }
    }
}

/// Clamp a scaled value into the unit range.
fn clamp_unit(v: i64) -> (r: i64)
    requires
        -4_000_000_000 <= v <= 4_000_000_000,
    ensures
        r == clamp_to(v as int, 1_000_000_000),
        -1_000_000_000 <= r <= 1_000_000_000,
{
    if v > 1_000_000_000 {
        1_000_000_000
    } else if v < -1_000_000_000 {
        -1_000_000_000
    } else {
        v
    }
}

} // verus!
