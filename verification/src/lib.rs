//! The discrete core of a small signal-synthesis toolkit.
//!
//! Signals are amplitudes over time. Their amplitudes are computed by the
//! program that uses this library; what can be settled in whole numbers is
//! settled here, once and exactly:
//!
//! - [`units`]: frequencies as whole cycles per second, with their arithmetic
//!   and order;
//! - [`standard_signals`]: which level the stock square wave has after a given
//!   number of cycles;
//! - [`sampler`]: the instants at which a signal is sampled at a fixed rate;
//! - [`table`]: one period of a signal as a table of samples, looked up by
//!   position and shifted by rotation;
//! - [`editor`]: the session in which a list of signals is edited from the
//!   keyboard.

pub mod editor;
pub mod sampler;
pub mod standard_signals;
pub mod table;
pub mod units;

pub use crate::units::FrequencyHz;
