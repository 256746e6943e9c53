//! A temperature-driven fan controller.
//!
//! The library holds the verified heart of a small single-board-computer fan
//! controller: it decides, from a temperature reading and a configured
//! threshold, whether a GPIO-driven fan relay should be on or off, and it
//! schedules the pauses between samples.  Temperatures are carried as
//! milli-degrees Celsius in `i64`, so that the decision logic is exact.
//!
//! The surrounding process (argument parsing, the sensor subprocess, the GPIO
//! writes and the sleeps) lives outside the library and merely performs the
//! actions that [`controller::Controller`] asks for, feeding the outcome of
//! each action back as an event.

pub mod config;
pub mod controller;
pub mod parse;
