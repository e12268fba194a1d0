//! Closed-loop thermal controller core.
//!
//! The library holds the decision logic of a fan-control daemon: a hysteresis
//! state machine that turns a temperature sample plus a configured threshold
//! and variance band into an actuator command, the parsing of raw sensor
//! readings, and the configuration defaults. Temperatures are carried as
//! integer millidegrees Celsius throughout, which is the unit the sensor
//! transport delivers. All I/O — reading the sensor file, driving the GPIO
//! line, loading the configuration — lives outside the library and hands it
//! plain values.

pub mod config;
pub mod fan;
pub mod temperature;
