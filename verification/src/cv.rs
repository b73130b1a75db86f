//! Visual-tracking engine: camera projection from pixels to ground
//! coordinates, the frame-processing pipeline over detections, and the
//! textual overlay of tracking results.

use vstd::prelude::*;
use crate::cvconfig::CvConfig;
use crate::cverror::CvError;
use crate::domain::{BoundingBox, DetectedHalo, DroneId, HaloColor, TrackingResult};
use crate::fmt::{dec_fixed_seq, dec_pad_seq, dec_seq, fmt_fixed, fmt_u64, fmt_u64_pad};
use crate::geo::{abs_val, cos_lat_spec, nrad_of_udeg, rescale, spec_cos_circle,
    spec_sin_circle, GeoPos};
use crate::kalman::{clamp_to, iabs, tz_div};
use crate::tracker::{carr_at, carries, count_exported, exported, DroneTracker};

verus! {

/// `a * b / c` rounded toward zero, the magnitude clamped to one
/// million degrees' worth of millimetres.
pub open spec fn spec_ratio_times(a: int, b: int, c: int) -> int {
    let mag = iabs(a) * b / c;
    let mag_c = if mag > 1_000_000_000_000 {
        1_000_000_000_000
    } else {
        mag
    };
    if a < 0 {
        -mag_c
    } else {
        mag_c
    }
}

/// Longitude offset in microdegrees: ground millimetres over
/// `111 km * cos(latitude)`, the magnitude clamped.
pub open spec fn spec_lng_offset_udeg(gx_mm: int, c1: int) -> int {
    let mag = iabs(gx_mm) * 1_000_000_000 / (111_000 * c1);
    let mag_c = if mag > 1_000_000_000_000 {
        1_000_000_000_000
    } else {
        mag
    };
    if gx_mm < 0 {
        -mag_c
    } else {
        mag_c
    }
}

/// The flat-earth pinhole projection of a pixel to ground coordinates,
/// in the fixed-point terms the projector computes: the pixel offset
/// from the principal point scaled by altitude over focal length, turned
/// into degree offsets, rotated by the camera heading, and added to the
/// camera position at ground level.
pub open spec fn spec_project_to_geo(px: int, py: int, cal: CameraCalibration) -> GeoPos {
    let du = px * 1000 - cal.principal_point_x_milli;
    let dv = py * 1000 - cal.principal_point_y_milli;
    let gx = spec_ratio_times(du, cal.camera_altitude_mm as int, cal.focal_length_x_milli as int);
    let gy = spec_ratio_times(dv, cal.camera_altitude_mm as int, cal.focal_length_y_milli as int);
    let lat_off = tz_div(gy, 111_000);
    let c1 = cos_lat_spec(abs_val(cal.camera_position.lat_udeg as int));
    let lng_off = if c1 == 0 {
        tz_div(gx, 111_000)
    } else {
        spec_lng_offset_udeg(gx, c1)
    };
    let h = nrad_of_udeg(cal.camera_heading_mdeg * 1000);
    let ch = spec_cos_circle(h);
    let sh = spec_sin_circle(h);
    let lat_c = clamp_to(lat_off, 1_000_000_000);
    let lng_c = clamp_to(lng_off, 1_000_000_000);
    let rot_lat = rescale(lat_c, ch) - rescale(lng_c, sh);
    let rot_lng = rescale(lat_c, sh) + rescale(lng_c, ch);
    GeoPos {
        lat_udeg: (cal.camera_position.lat_udeg + rot_lat) as i64,
        lng_udeg: (cal.camera_position.lng_udeg + rot_lng) as i64,
        alt_mm: 0,
    }
}

/// The `k`-th frame result reports some exported track of the engine.
pub open spec fn report_at(
    eng: CvEngine,
    results: Seq<TrackingResult>,
    at_ms: i64,
    k: int,
) -> bool {
    exists|j: int|
        0 <= j < eng.spec_tracks().len() && exported(
            #[trigger] eng.spec_tracks()[j],
            eng.spec_max_frames_to_skip(),
        ) && eng.result_reports(results[k], eng.spec_tracks()[j], at_ms)
}

/// Pinhole camera pose and intrinsics, in fixed point: focal lengths and
/// principal point in milli-pixels, altitude in millimetres, heading in
/// millidegrees.
#[derive(Clone, Debug)]
pub struct CameraCalibration {
    pub focal_length_x_milli: i64,
    pub focal_length_y_milli: i64,
    pub principal_point_x_milli: i64,
    pub principal_point_y_milli: i64,
    pub camera_altitude_mm: i64,
    pub camera_position: GeoPos,
    pub camera_heading_mdeg: i64,
}

impl CameraCalibration {
    /// Intrinsics sane enough to project: positive focal lengths, bounded
    /// pose.
    pub open spec fn wf(self) -> bool {
        &&& 1 <= self.focal_length_x_milli <= 1_000_000_000
        &&& 1 <= self.focal_length_y_milli <= 1_000_000_000
        &&& -1_000_000_000 <= self.principal_point_x_milli <= 1_000_000_000
        &&& -1_000_000_000 <= self.principal_point_y_milli <= 1_000_000_000
        &&& 0 <= self.camera_altitude_mm <= 100_000_000
        &&& self.camera_position.valid()
        &&& 0 <= self.camera_heading_mdeg < 360_000
    }
}

impl Default for CameraCalibration {
    fn default() -> (r: CameraCalibration)
        ensures
            r.wf(),
            r.camera_position == (GeoPos {
                lat_udeg: 34_555_300,
                lng_udeg: 69_207_500,
                alt_mm: 5_000_000_000,
            }),
            r.camera_heading_mdeg == 0,
            r.principal_point_x_milli == 640_000,
            r.principal_point_y_milli == 360_000,
    {
        CameraCalibration {
            focal_length_x_milli: 1_000_000,
            focal_length_y_milli: 1_000_000,
            principal_point_x_milli: 640_000,
            principal_point_y_milli: 360_000,
            camera_altitude_mm: 5_000_000,
            camera_position: GeoPos {
                lat_udeg: 34_555_300,
                lng_udeg: 69_207_500,
                alt_mm: 5_000_000_000,
            },
            camera_heading_mdeg: 0,
        }
    }
}

/// Flat-earth pinhole projection of a pixel to ground coordinates.
///
/// The pixel offset from the principal point, scaled by altitude over
/// focal length, gives a ground offset in metres; the offset is turned
/// into degree offsets (1 degree is about 111 km, narrowed by the cosine
/// of the latitude for longitude), rotated by the camera heading, and
/// added to the camera position at ground level.
pub fn project_to_geo(pixel_x: i32, pixel_y: i32, cal: &CameraCalibration) -> (r: GeoPos)
    requires
        cal.wf(),
        -1_000_000 <= pixel_x <= 1_000_000,
        -1_000_000 <= pixel_y <= 1_000_000,
    ensures
        r == spec_project_to_geo(pixel_x as int, pixel_y as int, *cal),
        r.alt_mm == 0,
        (pixel_x as int * 1000 == cal.principal_point_x_milli && pixel_y as int * 1000
            == cal.principal_point_y_milli && cal.camera_heading_mdeg == 0) ==> (r.lat_udeg
            == cal.camera_position.lat_udeg && r.lng_udeg == cal.camera_position.lng_udeg),
{
    let du_milli: i64 = (pixel_x as i64) * 1000 - cal.principal_point_x_milli;
    let dv_milli: i64 = (pixel_y as i64) * 1000 - cal.principal_point_y_milli;

    // Ground offsets in millimetres: (du / f) * altitude.
    let gx_mm: i64 = ratio_times(du_milli, cal.camera_altitude_mm, cal.focal_length_x_milli);
    let gy_mm: i64 = ratio_times(dv_milli, cal.camera_altitude_mm, cal.focal_length_y_milli);

    // Degree offsets in microdegrees: 111 km per degree of latitude.
    let lat_off: i64 = div_tz(gy_mm, 111_000);
    let lat_mag: u64 = if cal.camera_position.lat_udeg >= 0 {
        cal.camera_position.lat_udeg as u64
    } else {
        (-cal.camera_position.lat_udeg) as u64
    };
    let c1: u64 = crate::geo::cos_lat(lat_mag);
    let lng_off: i64 = if c1 == 0 {
        div_tz(gx_mm, 111_000)
    } else {
        lng_offset_udeg(gx_mm, c1)
    };

    // Rotate the degree offsets by the camera heading.
    let h_nrad: u64 = heading_to_nrad(cal.camera_heading_mdeg);
    let ch: i64 = crate::geo::cos_circle(h_nrad);
    let sh: i64 = crate::geo::sin_circle(h_nrad);
    let lat_c: i64 = clamp_off(lat_off);
    let lng_c: i64 = clamp_off(lng_off);
    let rot_lat: i64 = crate::geo::mul_scaled(lat_c, ch) - crate::geo::mul_scaled(lng_c, sh);
    let rot_lng: i64 = crate::geo::mul_scaled(lat_c, sh) + crate::geo::mul_scaled(lng_c, ch);

    proof {
        if pixel_x as int * 1000 == cal.principal_point_x_milli && pixel_y as int * 1000
            == cal.principal_point_y_milli && cal.camera_heading_mdeg == 0 {
            assert(du_milli == 0 && dv_milli == 0);
        }
    }
    GeoPos {
        lat_udeg: cal.camera_position.lat_udeg + rot_lat,
        lng_udeg: cal.camera_position.lng_udeg + rot_lng,
        alt_mm: 0,
    }
}

/// `a * b / c` rounded toward zero, clamped into one million degrees'
/// worth of millimetres.
fn ratio_times(a: i64, b: i64, c: i64) -> (r: i64)
    requires
        -2_000_000_000 <= a <= 2_000_000_000,
        0 <= b <= 100_000_000,
        1 <= c <= 1_000_000_000,
    ensures
        r == spec_ratio_times(a as int, b as int, c as int),
        -1_000_000_000_000 <= r <= 1_000_000_000_000,
        a == 0 ==> r == 0,
{
    let am: i128 = if a >= 0 {
        a as i128
    } else {
        -(a as i128)
    };
    proof {
        assert(0 <= am * (b as i128) <= 200_000_000_000_000_000i128 && (a == 0 ==> am * (b as i128)
            == 0)) by (nonlinear_arith)
            requires
                0 <= am <= 2_000_000_000i128,
                0 <= b as i128 <= 100_000_000i128,
                a == 0 ==> am == 0,
        ;
        assert(am as int == iabs(a as int));
    }
    let mag: i128 = am * (b as i128) / (c as i128);
    let mag_c: i128 = if mag > 1_000_000_000_000i128 {
        1_000_000_000_000i128
    } else {
        mag
    };
    proof {
        if a == 0 {
            assert(0int / (c as int) == 0) by (nonlinear_arith)
                requires
                    1 <= c as int,
            ;
        }
    }
    if a < 0 {
        -(mag_c as i64)
    } else {
        mag_c as i64
    }
}

/// Signed division rounded toward zero.
fn div_tz(n: i64, d: i64) -> (r: i64)
    requires
        1 <= d <= 1_000_000_000,
        -1_000_000_000_000 <= n <= 1_000_000_000_000,
    ensures
        r == tz_div(n as int, d as int),
        -1_000_000_000_000 <= r <= 1_000_000_000_000,
        n == 0 ==> r == 0,
{
    let nm: i64 = if n >= 0 {
        n
    } else {
        -n
    };
    proof {
        assert(0 <= (nm as int) / (d as int) <= nm as int) by (nonlinear_arith)
            requires
                0 <= nm as int,
                1 <= d as int,
        ;
        if n == 0 {
            assert(0int / (d as int) == 0) by (nonlinear_arith)
                requires
                    1 <= d as int,
            ;
        }
    }
    let q: i64 = nm / d;
    if n < 0 {
        -q
    } else {
        q
    }
}

/// Longitude offset in microdegrees: ground millimetres over
/// `111 km * cos(latitude)`.
fn lng_offset_udeg(gx_mm: i64, c1: u64) -> (r: i64)
    requires
        -1_000_000_000_000 <= gx_mm <= 1_000_000_000_000,
        1 <= c1 <= 1_000_000_000,
    ensures
        r == spec_lng_offset_udeg(gx_mm as int, c1 as int),
        -1_000_000_000_000 <= r <= 1_000_000_000_000,
        gx_mm == 0 ==> r == 0,
{
    let gm: i128 = if gx_mm >= 0 {
        gx_mm as i128
    } else {
        -(gx_mm as i128)
    };
    proof {
        assert(0 <= gm * 1_000_000_000i128 <= 1_000_000_000_000_000_000_000i128 && (gx_mm == 0
            ==> gm * 1_000_000_000i128 == 0)) by (nonlinear_arith)
            requires
                0 <= gm <= 1_000_000_000_000i128,
                gx_mm == 0 ==> gm == 0,
        ;
        assert(111_000i128 * (c1 as i128) >= 111_000 && 111_000i128 * (c1 as i128)
            <= 111_000_000_000_000i128) by (nonlinear_arith)
            requires
                1 <= c1 as i128 <= 1_000_000_000i128,
        ;
    }
    let den: i128 = 111_000i128 * (c1 as i128);
    let mag: i128 = gm * 1_000_000_000i128 / den;
    let mag_c: i128 = if mag > 1_000_000_000_000i128 {
        1_000_000_000_000i128
    } else {
        mag
    };
    proof {
        if gx_mm == 0 {
            assert(0int / (den as int) == 0) by (nonlinear_arith)
                requires
                    1 <= den as int,
            ;
        }
    }
    if gx_mm < 0 {
        -(mag_c as i64)
    } else {
        mag_c as i64
    }
}

/// Heading in millidegrees to nanoradians.
fn heading_to_nrad(h_mdeg: i64) -> (r: u64)
    requires
        0 <= h_mdeg < 360_000,
    ensures
        r == nrad_of_udeg(h_mdeg * 1000),
        r <= crate::trig::TWO_PI_N + 16,
        h_mdeg == 0 ==> r == 0,
{
    crate::geo::udeg_to_nrad((h_mdeg as u64) * 1000)
}

/// Degree offsets clamped into one degree's worth of microdegrees times a
/// thousand, so the rotation stays in range.
fn clamp_off(v: i64) -> (r: i64)
    ensures
        r == clamp_to(v as int, 1_000_000_000),
        -1_000_000_000 <= r <= 1_000_000_000,
        v == 0 ==> r == 0,
{
    if v > 1_000_000_000 {
        1_000_000_000
    } else if v < -1_000_000_000 {
        -1_000_000_000
    } else {
        v
    }
}

/// Detection statistics of the halo detector.
#[derive(Clone, Debug)]
pub struct DetectionStats {
    pub frames_processed: u64,
    pub halos_detected: u64,
    pub false_positives: u64,
    pub detection_time_us: u64,
}

impl Default for DetectionStats {
    fn default() -> (r: DetectionStats)
        ensures
            r.frames_processed == 0,
            r.halos_detected == 0,
            r.false_positives == 0,
            r.detection_time_us == 0,
    {
        DetectionStats { frames_processed: 0, halos_detected: 0, false_positives: 0, detection_time_us: 0 }
    }
}

/// Halo detector configuration holder. The image analysis itself runs
/// outside the library; this holds its parameters and statistics, and
/// reports no detections on its own.
pub struct HaloDetector {
    config: CvConfig,
    stats: DetectionStats,
}

impl HaloDetector {
    /// The current detection statistics.
    pub closed spec fn spec_stats(self) -> DetectionStats {
        self.stats
    }

    pub fn new(config: &CvConfig) -> (r: Result<HaloDetector, CvError>)
        ensures
            r is Ok,
    {
        Ok(HaloDetector { config: config.clone(), stats: DetectionStats::default() })
    }

    /// Without a frame source, no halos are detected.
    pub fn detect(&self) -> (r: Result<Vec<DetectedHalo>, CvError>)
        ensures
            r matches Ok(v) && v@.len() == 0,
    {
        Ok(Vec::new())
    }

    pub fn stats(&self) -> (r: &DetectionStats) {
        &self.stats
    }

    pub fn reset_stats(&mut self)
        ensures
            final(self).spec_stats().frames_processed == 0,
    {
        self.stats = DetectionStats::default();
    }
}

/// Overlay renderer: textual rendering of tracking results.
pub struct OverlayRenderer {
    config: CvConfig,
}

/// The overlay text of one result: the id line, then the halo line if a
/// halo is present, the position line if a position is estimated, and the
/// confidence line.
pub open spec fn spec_result_text(r: TrackingResult) -> Seq<char> {
    let id_line = "ID:"@ + spec_pad4(r.tracking_id as nat) + " ["@ + r.drone_id.0@ + "]\n"@;
    let halo_line: Seq<char> = match r.halo {
        Some(h) => "  Halo: center=("@ + crate::fmt::dec_seq_int(h.center_x as int) + ", "@
            + crate::fmt::dec_seq_int(h.center_y as int) + "), radius="@ + crate::fmt::dec_seq_int(
            h.radius as int,
        ) + "\n"@,
        None => Seq::<char>::empty(),
    };
    let geo_line: Seq<char> = match r.estimated_position {
        Some(p) => "  Geo: "@ + dec_fixed_seq(p.lat_udeg as int, 1_000_000, 6) + " N, "@
            + dec_fixed_seq(p.lng_udeg as int, 1_000_000, 6) + " E\n"@,
        None => Seq::<char>::empty(),
    };
    let conf_line = "  Confidence: "@ + dec_fixed_seq((r.confidence_ppm / 1000) as int, 10, 1)
        + "%\n"@;
    id_line + halo_line + geo_line + conf_line
}

/// Identifiers below ten thousand are zero-padded to four digits.
pub open spec fn spec_pad4(n: nat) -> Seq<char> {
    if n < 10000 {
        dec_pad_seq(n, 4)
    } else {
        dec_seq(n)
    }
}

/// The full overlay text: a header with the result count, then each
/// result's text in order.
pub open spec fn spec_overlay_text(rs: Seq<TrackingResult>, upto: int) -> Seq<char>
    decreases upto,
{
    if upto <= 0 {
        "=== Tracking "@
    } else if upto == 1 {
        spec_overlay_text(rs, 0) + dec_seq(rs.len() as nat) + " Drones ===\n"@
    } else {
        spec_overlay_text(rs, upto - 1) + spec_result_text(rs[upto - 2])
    }
}

fn pad4(n: u32) -> (s: String)
    ensures
        s@ == spec_pad4(n as nat),
{
    if n < 10000 {
        fmt_u64_pad(n as u64, 4)
    } else {
        fmt_u64(n as u64)
    }
}

impl OverlayRenderer {
    pub fn new(config: &CvConfig) -> (r: Result<OverlayRenderer, CvError>)
        ensures
            r is Ok,
    {
        Ok(OverlayRenderer { config: config.clone() })
    }

    /// Renders the results as the overlay text.
    pub fn format_overlay_text(&self, results: &Vec<TrackingResult>) -> (s: String)
        ensures
            s@ == spec_overlay_text(results@, results@.len() as int + 1),
    {
        proof {
            reveal_strlit("=== Tracking ");
            reveal_strlit(" Drones ===\n");
        }
        let mut s: String = "=== Tracking ".to_owned();
        s.append(fmt_u64(results.len() as u64).as_str());
        s.append(" Drones ===\n");
        proof {
            assert(spec_overlay_text(results@, 0) == "=== Tracking "@);
            assert(s@ =~= spec_overlay_text(results@, 1));
        }
        let n: usize = results.len();
        let mut i: usize = 0;
        while i < n
            invariant
                i <= n,
                n == results@.len(),
                s@ == spec_overlay_text(results@, i + 1),
            decreases n - i,
        {
            let line: String = result_text(&results[i]);
            s.append(line.as_str());
            proof {
                assert(spec_overlay_text(results@, i + 2) == spec_overlay_text(results@, i + 1)
                    + spec_result_text(results@[i as int]));
            }
            i += 1;
        }
        s
    }
}

/// Renders the overlay text of one result.
fn result_text(r: &TrackingResult) -> (s: String)
    ensures
        s@ == spec_result_text(*r),
{
    proof {
        reveal_strlit("ID:");
        reveal_strlit(" [");
        reveal_strlit("]\n");
    }
    let mut s: String = "ID:".to_owned();
    s.append(pad4(r.tracking_id).as_str());
    s.append(" [");
    s.append(r.drone_id.as_str());
    s.append("]\n");
    proof {
        assert(s@ =~= "ID:"@ + spec_pad4(r.tracking_id as nat) + " ["@ + r.drone_id.0@ + "]\n"@);
    }
    let halo_line: String = halo_text(&r.halo);
    s.append(halo_line.as_str());
    let geo_line: String = geo_text(&r.estimated_position);
    s.append(geo_line.as_str());
    proof {
        reveal_strlit("  Confidence: ");
        reveal_strlit("%\n");
    }
    s.append("  Confidence: ");
    s.append(fmt_fixed((r.confidence_ppm / 1000) as i64, 10, 1).as_str());
    s.append("%\n");
    proof {
        assert(s@ =~= spec_result_text(*r));
    }
    s
}

/// The halo line of one result, empty without a halo.
fn halo_text(h: &Option<DetectedHalo>) -> (s: String)
    ensures
        h matches Some(hh) ==> s@ == "  Halo: center=("@ + crate::fmt::dec_seq_int(
            hh.center_x as int,
        ) + ", "@ + crate::fmt::dec_seq_int(hh.center_y as int) + "), radius="@
            + crate::fmt::dec_seq_int(hh.radius as int) + "\n"@,
        h is None ==> s@ == Seq::<char>::empty(),
{
    match h {
        Some(hh) => {
            proof {
                reveal_strlit("  Halo: center=(");
                reveal_strlit(", ");
                reveal_strlit("), radius=");
                reveal_strlit("\n");
            }
            let mut s: String = "  Halo: center=(".to_owned();
            s.append(crate::fmt::fmt_i64(hh.center_x as i64).as_str());
            s.append(", ");
            s.append(crate::fmt::fmt_i64(hh.center_y as i64).as_str());
            s.append("), radius=");
            s.append(crate::fmt::fmt_i64(hh.radius as i64).as_str());
            s.append("\n");
            proof {
                assert(s@ =~= "  Halo: center=("@ + crate::fmt::dec_seq_int(hh.center_x as int)
                    + ", "@ + crate::fmt::dec_seq_int(hh.center_y as int) + "), radius="@
                    + crate::fmt::dec_seq_int(hh.radius as int) + "\n"@);
            }
            s
        },
        None => {
            let s = String::new();
            s
        },
    }
}

/// The position line of one result, empty without an estimate.
fn geo_text(p: &Option<GeoPos>) -> (s: String)
    ensures
        p matches Some(pp) ==> s@ == "  Geo: "@ + dec_fixed_seq(pp.lat_udeg as int, 1_000_000, 6)
            + " N, "@ + dec_fixed_seq(pp.lng_udeg as int, 1_000_000, 6) + " E\n"@,
        p is None ==> s@ == Seq::<char>::empty(),
{
    match p {
        Some(pp) => {
            proof {
                reveal_strlit("  Geo: ");
                reveal_strlit(" N, ");
                reveal_strlit(" E\n");
            }
            let mut s: String = "  Geo: ".to_owned();
            s.append(fmt_fixed(pp.lat_udeg, 1_000_000, 6).as_str());
            s.append(" N, ");
            s.append(fmt_fixed(pp.lng_udeg, 1_000_000, 6).as_str());
            s.append(" E\n");
            proof {
                assert(s@ =~= "  Geo: "@ + dec_fixed_seq(pp.lat_udeg as int, 1_000_000, 6) + " N, "@
                    + dec_fixed_seq(pp.lng_udeg as int, 1_000_000, 6) + " E\n"@);
            }
            s
        },
        None => {
            let s = String::new();
            s
        },
    }
}

/// A synthetic frame for driving the pipeline without a camera.
#[derive(Clone, Debug)]
pub struct SimulatedFrame {
    pub width: u32,
    pub height: u32,
    pub drones: Vec<SimulatedDrone>,
}

/// One synthetic drone blip in a simulated frame.
#[derive(Clone, Debug)]
pub struct SimulatedDrone {
    pub id: DroneId,
    pub pixel_x: i32,
    pub pixel_y: i32,
    pub halo_radius: i32,
}

/// The visual-tracking engine: detector parameters, the multi-object
/// tracker, the overlay renderer, and the camera pose.
pub struct CvEngine {
    config: CvConfig,
    detector: HaloDetector,
    tracker: DroneTracker,
    renderer: OverlayRenderer,
    camera: Option<CameraCalibration>,
}

impl CvEngine {
    pub closed spec fn wf(self) -> bool {
        &&& self.tracker.wf()
        &&& (self.camera matches Some(c) ==> c.wf())
    }

    /// The camera pose, if one is set.
    pub closed spec fn spec_camera(self) -> Option<CameraCalibration> {
        self.camera
    }

    /// The tracker's live tracks.
    pub closed spec fn spec_tracks(self) -> Seq<crate::tracker::TrackState> {
        self.tracker.spec_tracks()
    }

    /// The tracker's retirement horizon.
    pub closed spec fn spec_max_frames_to_skip(self) -> int {
        self.tracker.spec_max_frames_to_skip()
    }

    /// Whether one frame result reports the given track state: it names
    /// the track, carries its last detection as the halo, its confidence,
    /// the frame time, and the detection centre projected through the
    /// camera when one is set.
    pub open spec fn result_reports(
        self,
        res: TrackingResult,
        t: crate::tracker::TrackState,
        at_ms: i64,
    ) -> bool {
        &&& res.tracking_id == t.tracking_id
        &&& res.halo == Some(t.last_detection)
        &&& res.confidence_ppm == t.confidence_ppm
        &&& res.frame_timestamp_ms == at_ms
        &&& (self.spec_camera() matches Some(cal) ==> res.estimated_position == Some(
            spec_project_to_geo(
                clamp_to(t.last_detection.center_x as int, 1_000_000),
                clamp_to(t.last_detection.center_y as int, 1_000_000),
                cal,
            ),
        ))
        &&& (self.spec_camera() is None ==> res.estimated_position is None)
    }

    pub fn new() -> (r: Result<CvEngine, CvError>)
        ensures
            r is Ok,
            r matches Ok(e) && e.wf(),
    {
        CvEngine::with_config(CvConfig::default())
    }

    pub fn with_config(config: CvConfig) -> (r: Result<CvEngine, CvError>)
        ensures
            r is Ok,
            r matches Ok(e) && e.wf(),
    {
        let detector = match HaloDetector::new(&config) {
            Ok(d) => d,
            Err(e) => {
                return Err(e);
            },
        };
        let tracker = match DroneTracker::new(&config) {
            Ok(t) => t,
            Err(e) => {
                return Err(e);
            },
        };
        let renderer = match OverlayRenderer::new(&config) {
            Ok(t) => t,
            Err(e) => {
                return Err(e);
            },
        };
        Ok(
            CvEngine {
                config,
                detector,
                tracker,
                renderer,
                camera: Some(CameraCalibration::default()),
            },
        )
    }

    /// Runs one frame's detections through the tracker and projects the
    /// exported tracks to ground coordinates: the result is exactly the
    /// tracker's exported view after this frame, one record per exported
    /// track, each carrying the track's detection, id, confidence and
    /// projected position.
    pub fn process_detections(&mut self, detections: &Vec<DetectedHalo>, at_ms: i64) -> (r: Result<
        Vec<TrackingResult>,
        CvError,
    >)
        requires
            old(self).wf(),
        ensures
            final(self).wf(),
            final(self).spec_camera() == old(self).spec_camera(),
            final(self).spec_max_frames_to_skip() == old(self).spec_max_frames_to_skip(),
            r is Ok,
            r matches Ok(results) && results@.len() == count_exported(
                final(self).spec_tracks(),
                final(self).spec_max_frames_to_skip(),
            ) && (forall|k: int|
                0 <= k < results@.len() ==> #[trigger] report_at(
                    *final(self),
                    results@,
                    at_ms,
                    k,
                )),
    {
        let tracks = match self.tracker.update(detections) {
            Ok(t) => t,
            Err(e) => {
                return Err(e);
            },
        };
        let n: usize = tracks.len();
        let mut results: Vec<TrackingResult> = Vec::new();
        let mut i: usize = 0;
        while i < n
            invariant
                i <= n,
                n == tracks@.len(),
                self.camera matches Some(c) ==> c.wf(),
                self.tracker.wf(),
                n as int == count_exported(
                    self.tracker.spec_tracks(),
                    self.tracker.spec_max_frames_to_skip(),
                ),
                forall|k: int|
                    0 <= k < n ==> #[trigger] carr_at(
                        tracks@,
                        self.tracker.spec_tracks(),
                        self.tracker.spec_tracks().len() as int,
                        self.tracker.spec_max_frames_to_skip(),
                        k,
                    ),
                results@.len() == i,
                forall|k: int| 0 <= k < i ==> #[trigger] report_at(*self, results@, at_ms, k),
            decreases n - i,
        {
            let track = &tracks[i];
            let cx: i32 = clamp_px(track.last_detection.center_x);
            let cy: i32 = clamp_px(track.last_detection.center_y);
            let estimated = match &self.camera {
                Some(cal) => Some(project_to_geo(cx, cy, cal)),
                None => None,
            };
            let radius: i32 = if track.last_detection.radius >= 0 && track.last_detection.radius
                <= 500_000 {
                track.last_detection.radius
            } else {
                0
            };
            let bbox = BoundingBox {
                x: cx - radius,
                y: cy - radius,
                width: radius * 2,
                height: radius * 2,
            };
            let drone_id = match &track.drone_id {
                Some(d) => d.clone(),
                None => {
                    let mut name: String = "TRACK-".to_owned();
                    name.append(pad4(track.tracking_id).as_str());
                    DroneId::from_string(name)
                },
            };
            let ghost pre_results = results@;
            results.push(
                TrackingResult {
                    drone_id,
                    tracking_id: track.tracking_id,
                    bbox,
                    halo: Some(track.last_detection),
                    estimated_position: estimated,
                    confidence_ppm: track.confidence_ppm,
                    frame_timestamp_ms: at_ms,
                },
            );
            proof {
                assert(carr_at(
                    tracks@,
                    self.tracker.spec_tracks(),
                    self.tracker.spec_tracks().len() as int,
                    self.tracker.spec_max_frames_to_skip(),
                    i as int,
                ));
                let j = choose|j: int|
                    0 <= j < self.tracker.spec_tracks().len() as int && exported(
                        #[trigger] self.tracker.spec_tracks()[j],
                        self.tracker.spec_max_frames_to_skip(),
                    ) && carries(tracks@[i as int], self.tracker.spec_tracks()[j]);
                assert(self.result_reports(results@[i as int], self.spec_tracks()[j], at_ms));
                assert(report_at(*self, results@, at_ms, i as int));
                assert forall|k: int| 0 <= k < i + 1 implies #[trigger] report_at(
                    *self,
                    results@,
                    at_ms,
                    k,
                ) by {
                    if k < i as int {
                        assert(report_at(*self, pre_results, at_ms, k));
                        let jj = choose|jj: int|
                            0 <= jj < self.spec_tracks().len() && exported(
                                #[trigger] self.spec_tracks()[jj],
                                self.spec_max_frames_to_skip(),
                            ) && self.result_reports(pre_results[k], self.spec_tracks()[jj], at_ms);
                        assert(results@[k] == pre_results[k]);
                        assert(self.result_reports(results@[k], self.spec_tracks()[jj], at_ms));
                    }
                }
            }
            i += 1;
        }
        Ok(results)
    }

    /// Builds one tracking result per simulated drone, projecting each
    /// blip through the camera.
    pub fn process_simulated_frame(&self, frame: &SimulatedFrame, at_ms: i64) -> (r: Vec<
        TrackingResult,
    >)
        requires
            self.wf(),
            frame.drones@.len() <= 1_000_000,
        ensures
            r@.len() == frame.drones@.len(),
            forall|k: int| 0 <= k < r@.len() ==> (#[trigger] r@[k]).halo is Some,
            self.spec_camera() is Some ==> forall|k: int|
                0 <= k < r@.len() ==> (#[trigger] r@[k]).estimated_position is Some,
            forall|k: int| 0 <= k < r@.len() ==> (#[trigger] r@[k]).tracking_id as int == k + 1,
    {
        let n: usize = frame.drones.len();
        let mut results: Vec<TrackingResult> = Vec::new();
        let mut i: usize = 0;
        while i < n
            invariant
                i <= n,
                n <= 1_000_000,
                n == frame.drones@.len(),
                results@.len() == i,
                self.camera matches Some(c) ==> c.wf(),
                forall|k: int| 0 <= k < i ==> (#[trigger] results@[k]).halo is Some,
                self.spec_camera() is Some ==> forall|k: int|
                    0 <= k < i ==> (#[trigger] results@[k]).estimated_position is Some,
                forall|k: int|
                    0 <= k < i ==> (#[trigger] results@[k]).tracking_id as int == k + 1,
            decreases n - i,
        {
            let d = &frame.drones[i];
            let tracking_id: u32 = (i + 1) as u32;
            let cx: i32 = clamp_px(d.pixel_x);
            let cy: i32 = clamp_px(d.pixel_y);
            let estimated = match &self.camera {
                Some(cal) => Some(project_to_geo(cx, cy, cal)),
                None => None,
            };
            let radius: i32 = if d.halo_radius >= 0 && d.halo_radius <= 500_000 {
                d.halo_radius
            } else {
                0
            };
            let bbox = BoundingBox {
                x: cx - radius,
                y: cy - radius,
                width: radius * 2,
                height: radius * 2,
            };
            let halo = DetectedHalo {
                center_x: d.pixel_x,
                center_y: d.pixel_y,
                radius: d.halo_radius,
                color: HaloColor::red(),
                confidence_ppm: 950_000,
            };
            results.push(
                TrackingResult {
                    drone_id: d.id.clone(),
                    tracking_id,
                    bbox,
                    halo: Some(halo),
                    estimated_position: estimated,
                    confidence_ppm: 950_000,
                    frame_timestamp_ms: at_ms,
                },
            );
            i += 1;
        }
        results
    }

    /// Associates a tracking id with a drone.
    pub fn associate_drone(&mut self, tracking_id: u32, drone_id: DroneId)
        requires
            old(self).wf(),
        ensures
            final(self).wf(),
    {
        self.tracker.associate_drone(tracking_id, drone_id);
    }

    /// The number of confirmed tracks.
    pub fn active_track_count(&self) -> (r: usize)
        ensures
            r == crate::tracker::count_confirmed(self.spec_tracks()),
    {
        self.tracker.active_count()
    }

    pub fn set_camera_calibration(&mut self, calibration: CameraCalibration)
        requires
            old(self).wf(),
            calibration.wf(),
        ensures
            final(self).wf(),
            final(self).spec_camera() == Some(calibration),
    {
        self.camera = Some(calibration);
    }

    pub fn config(&self) -> (r: &CvConfig) {
        &self.config
    }

    /// Renders the overlay text for a set of results.
    pub fn overlay_text(&self, results: &Vec<TrackingResult>) -> (s: String)
        ensures
            s@ == spec_overlay_text(results@, results@.len() as int + 1),
    {
        self.renderer.format_overlay_text(results)
    }
}

/// Clamp a pixel coordinate into the projective working window.
fn clamp_px(c: i32) -> (r: i32)
    ensures
        r == clamp_to(c as int, 1_000_000),
        -1_000_000 <= r <= 1_000_000,
{
    if c > 1_000_000 {
        1_000_000
    } else if c < -1_000_000 {
        -1_000_000
    } else {
        c
    }
}

} // verus!
