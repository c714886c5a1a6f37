//! Verified core logic for an indoor air-quality sensor station.
pub mod bme688;
pub mod framing;
pub mod ics43434;
pub mod opt3001;
