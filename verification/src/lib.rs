//! Real-time drone convoy tracking library.
//!
//! The library keeps every quantity as a plain integer in a fixed scale:
//! latitudes and longitudes in microdegrees, altitudes in millimetres,
//! distances in metres, angles in nanoradians, confidences and ratios in
//! parts per million. All tracking, mission and fan-out logic is stated and
//! verified over these values.

pub mod api;
pub mod bus;
pub mod codec;
pub mod convoy;
pub mod cv;
pub mod cvconfig;
pub mod cverror;
pub mod domain;
pub mod events;
pub mod fleet;
pub mod fmt;
pub mod geo;
pub mod hub;
pub mod kalman;
pub mod metrics;
pub mod mission;
pub mod p2p;
pub mod persist;
pub mod state;
mod sys;
pub mod tracker;
pub mod trig;
