//! Errors of the visual-tracking subsystem.

use vstd::prelude::*;

verus! {

/// Errors that can occur in visual-tracking operations.
#[derive(Clone, Debug)]
pub enum CvError {
    OpenCv(String),
    FrameProcessing(String),
    HaloDetection(String),
    Tracking(String),
    InvalidConfig(String),
    Calibration(String),
    Rendering(String),
    ResourceUnavailable(String),
}

impl CvError {
    pub fn opencv(msg: &str) -> (r: CvError)
        ensures
            r matches CvError::OpenCv(m) && m@ == msg@,
    {
        CvError::OpenCv(msg.to_owned())
    }

    pub fn frame_processing(msg: &str) -> (r: CvError)
        ensures
            r matches CvError::FrameProcessing(m) && m@ == msg@,
    {
        CvError::FrameProcessing(msg.to_owned())
    }

    pub fn halo_detection(msg: &str) -> (r: CvError)
        ensures
            r matches CvError::HaloDetection(m) && m@ == msg@,
    {
        CvError::HaloDetection(msg.to_owned())
    }

    pub fn tracking(msg: &str) -> (r: CvError)
        ensures
            r matches CvError::Tracking(m) && m@ == msg@,
    {
        CvError::Tracking(msg.to_owned())
    }

    pub fn invalid_config(msg: &str) -> (r: CvError)
        ensures
            r matches CvError::InvalidConfig(m) && m@ == msg@,
    {
        CvError::InvalidConfig(msg.to_owned())
    }
}

} // verus!
