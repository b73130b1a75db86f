//! Configuration records of the visual-tracking subsystem.
//!
//! Ratios are integers: thousandths (`_milli`) for detector parameters,
//! parts per million (`_ppm`) for confidences and overlap thresholds,
//! micro-units (`_u`) for the Kalman noise intensities.

use vstd::prelude::*;
use crate::domain::HaloColor;

verus! {

/// Halo detection configuration.
#[derive(Clone, Debug)]
pub struct HaloConfig {
    /// Target halo colour.
    pub color: HaloColor,
    /// Colour tolerance for detection (HSV), thousandths.
    pub hue_tolerance_milli: u32,
    pub saturation_min_milli: u32,
    pub value_min_milli: u32,
    /// Circle detection radius window, pixels.
    pub min_radius: i32,
    pub max_radius: i32,
    /// Inverse accumulator resolution, thousandths.
    pub dp_milli: u32,
    /// Minimum distance between circle centres, thousandths of a pixel.
    pub min_dist_milli: u32,
    /// Edge detector threshold, thousandths.
    pub param1_milli: u32,
    /// Accumulator threshold for circle centres, thousandths.
    pub param2_milli: u32,
    /// Minimum confidence for a detection, parts per million.
    pub min_confidence_ppm: u32,
}

impl Default for HaloConfig {
    fn default() -> (r: HaloConfig)
        ensures
            r.color == (HaloColor { r: 255, g: 0, b: 0 }),
            r.hue_tolerance_milli == 15_000,
            r.saturation_min_milli == 100_000,
            r.value_min_milli == 100_000,
            r.min_radius == 15,
            r.max_radius == 100,
            r.dp_milli == 1_000,
            r.min_dist_milli == 50_000,
            r.param1_milli == 100_000,
            r.param2_milli == 30_000,
            r.min_confidence_ppm == 700_000,
    {
        HaloConfig {
            color: HaloColor::red(),
            hue_tolerance_milli: 15_000,
            saturation_min_milli: 100_000,
            value_min_milli: 100_000,
            min_radius: 15,
            max_radius: 100,
            dp_milli: 1_000,
            min_dist_milli: 50_000,
            param1_milli: 100_000,
            param2_milli: 30_000,
            min_confidence_ppm: 700_000,
        }
    }
}

/// Track association and lifecycle configuration.
#[derive(Clone, Debug)]
pub struct TrackingConfig {
    /// Frames a track may coast without a detection before retirement.
    pub max_frames_to_skip: u32,
    /// Overlap threshold for association, parts per million.
    pub iou_threshold_ppm: u32,
    /// Kalman process noise intensity, micro-units.
    pub kalman_process_noise_u: i64,
    /// Kalman measurement noise intensity, micro-units.
    pub kalman_measurement_noise_u: i64,
    /// Cap on simultaneously live tracks.
    pub max_tracks: usize,
    /// Consecutive detections needed to confirm a track.
    pub min_frames_to_confirm: u32,
}

impl Default for TrackingConfig {
    fn default() -> (r: TrackingConfig)
        ensures
            r.max_frames_to_skip == 10,
            r.iou_threshold_ppm == 300_000,
            r.kalman_process_noise_u == 10_000,
            r.kalman_measurement_noise_u == 100_000,
            r.max_tracks == 50,
            r.min_frames_to_confirm == 3,
    {
        TrackingConfig {
            max_frames_to_skip: 10,
            iou_threshold_ppm: 300_000,
            kalman_process_noise_u: 10_000,
            kalman_measurement_noise_u: 100_000,
            max_tracks: 50,
            min_frames_to_confirm: 3,
        }
    }
}

/// Overlay rendering configuration.
#[derive(Clone, Debug)]
pub struct RenderingConfig {
    pub draw_halos: bool,
    pub draw_bboxes: bool,
    pub draw_ids: bool,
    pub draw_coordinates: bool,
    pub draw_confidence: bool,
    pub halo_thickness: i32,
    /// Font scale, thousandths.
    pub font_scale_milli: u32,
    pub text_thickness: i32,
    /// Overlay background opacity, thousandths.
    pub overlay_opacity_milli: u32,
}

impl Default for RenderingConfig {
    fn default() -> (r: RenderingConfig)
        ensures
            r.draw_halos,
            r.draw_bboxes,
            r.draw_ids,
            r.draw_coordinates,
            r.draw_confidence,
            r.halo_thickness == 3,
            r.font_scale_milli == 600,
            r.text_thickness == 2,
            r.overlay_opacity_milli == 700,
    {
        RenderingConfig {
            draw_halos: true,
            draw_bboxes: true,
            draw_ids: true,
            draw_coordinates: true,
            draw_confidence: true,
            halo_thickness: 3,
            font_scale_milli: 600,
            text_thickness: 2,
            overlay_opacity_milli: 700,
        }
    }
}

/// Configuration of the visual-tracking engine.
#[derive(Clone, Debug)]
pub struct CvConfig {
    pub halo: HaloConfig,
    pub tracking: TrackingConfig,
    pub rendering: RenderingConfig,
}

impl Default for CvConfig {
    fn default() -> (r: CvConfig)
        ensures
            r.tracking.max_frames_to_skip == 10,
            r.tracking.iou_threshold_ppm == 300_000,
            r.tracking.max_tracks == 50,
            r.tracking.min_frames_to_confirm == 3,
    {
        CvConfig {
            halo: HaloConfig::default(),
            tracking: TrackingConfig::default(),
            rendering: RenderingConfig::default(),
        }
    }
}

impl CvConfig {
    /// A configuration tightened for red halos.
    pub fn red_halo_tracking() -> (r: CvConfig)
        ensures
            r.halo.hue_tolerance_milli == 10_000,
            r.halo.saturation_min_milli == 150_000,
            r.halo.value_min_milli == 150_000,
    {
        let mut c = CvConfig::default();
        c.halo.color = HaloColor::red();
        c.halo.hue_tolerance_milli = 10_000;
        c.halo.saturation_min_milli = 150_000;
        c.halo.value_min_milli = 150_000;
        c
    }

    /// A configuration loosened for halos of several colours.
    pub fn multi_color_tracking() -> (r: CvConfig)
        ensures
            r.halo.hue_tolerance_milli == 20_000,
            r.halo.saturation_min_milli == 80_000,
            r.halo.value_min_milli == 80_000,
    {
        let mut c = CvConfig::default();
        c.halo.hue_tolerance_milli = 20_000;
        c.halo.saturation_min_milli = 80_000;
        c.halo.value_min_milli = 80_000;
        c
    }

    /// A configuration trading detection quality for speed.
    pub fn high_performance() -> (r: CvConfig)
        ensures
            r.halo.dp_milli == 2_000,
            r.halo.param2_milli == 50_000,
            r.tracking.max_tracks == 20,
            r.tracking.max_frames_to_skip == 5,
    {
        let mut c = CvConfig::default();
        c.halo.dp_milli = 2_000;
        c.halo.param2_milli = 50_000;
        c.tracking.max_tracks = 20;
        c.tracking.max_frames_to_skip = 5;
        c
    }
}

} // verus!
