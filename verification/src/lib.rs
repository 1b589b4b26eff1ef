//! Usage projection and alert engine for a quota monitor.
//!
//! A poll of the quota service yields, per quota window, a utilization
//! percentage and the instant at which the window resets. This library turns
//! such a snapshot and the instant of evaluation into a status bar: the
//! utilization expected at reset if consumption goes on at the rate seen so
//! far, a severity colour, a countdown text and, where the limit will be hit
//! before the reset, the length of the locked-out gap. Consumption is assumed
//! to happen only inside a daily active window of local time.

pub mod instant;
pub mod calendar;
pub mod clock;
pub mod projection;
pub mod severity;
pub mod text;
pub mod display;
pub mod usage;
pub mod config;
pub mod icon;
pub mod session;
pub mod raster;
