//! Decoder for the value of the Bluetooth Low Energy Heart Rate Measurement
//! characteristic.
//!
//! A frame starts with a flags byte that says which fields follow and how
//! wide they are. [`hr_data::HRData2`] is the decoded frame; [`frame`] holds
//! the mathematical description of the wire layout that every contract of
//! this crate is stated against.

pub mod error;
pub mod flags;
pub mod frame;
pub mod hr_data;
pub mod laws;
mod pairs;
