//! The daemon's settings and their defaults.
//!
//! Every setting has a built-in default, so a missing configuration file, or
//! a file that names only some of the settings, still yields a complete
//! configuration. Threshold and variance are carried in millidegrees
//! Celsius, the sensor's own unit; together they define the on-point
//! `threshold + variance` and the off-point `threshold - variance` of the
//! hysteresis band, which is non-degenerate exactly when the variance is not
//! negative.

use vstd::prelude::*;

verus! {

/// The complete, immutable settings the daemon runs with.
pub struct Config {
    pub temp_path: String,
    pub gpio_line: u32,
    pub gpio_chip: String,
    pub log_path: String,
    pub threshold_millicelsius: i64,
    pub variance_millicelsius: i64,
    pub interval_ms: u64,
}

/// The settings a configuration file actually named; whatever it left out
/// falls back to the built-in default.
pub struct PartialConfig {
    pub temp_path: Option<String>,
    pub gpio_line: Option<u32>,
    pub gpio_chip: Option<String>,
    pub log_path: Option<String>,
    pub threshold_millicelsius: Option<i64>,
    pub variance_millicelsius: Option<i64>,
    pub interval_ms: Option<u64>,
}

impl PartialConfig {
    /// The partial configuration of a missing file: nothing named, so every
    /// setting takes its default.
    pub fn empty() -> (p: Self)
        ensures
            p.temp_path is None,
            p.gpio_line is None,
            p.gpio_chip is None,
            p.log_path is None,
            p.threshold_millicelsius is None,
            p.variance_millicelsius is None,
            p.interval_ms is None,
    {
        PartialConfig {
            temp_path: None,
            gpio_line: None,
            gpio_chip: None,
            log_path: None,
            threshold_millicelsius: None,
            variance_millicelsius: None,
            interval_ms: None,
        }
    }
}

impl Config {
    /// The hysteresis band is non-degenerate: the on-point lies at or above
    /// the off-point. This is exactly `variance >= 0`, which the defaults
    /// satisfy; a file that names a negative variance breaks it, and config
    /// validation is where that is surfaced.
    pub open spec fn wf(&self) -> bool {
        self.variance_millicelsius >= 0
    }

    /// Complete a partial configuration: every setting the file named is
    /// kept, every other one takes its built-in default.
    pub fn from_partial(partial: PartialConfig) -> (c: Config)
        ensures
            (match partial.temp_path {
                Some(p) => c.temp_path@ == p@,
                None => c.temp_path@ == "/sys/class/thermal/thermal_zone0/temp"@,
            }),
            (match partial.gpio_line {
                Some(v) => c.gpio_line == v,
                None => c.gpio_line == 17u32,
            }),
            (match partial.gpio_chip {
                Some(p) => c.gpio_chip@ == p@,
                None => c.gpio_chip@ == "/dev/gpiochip0"@,
            }),
            (match partial.log_path {
                Some(p) => c.log_path@ == p@,
                None => c.log_path@ == "/var/log/fan_control.log"@,
            }),
            (match partial.threshold_millicelsius {
                Some(v) => c.threshold_millicelsius == v,
                None => c.threshold_millicelsius == 55000i64,
            }),
            (match partial.variance_millicelsius {
                Some(v) => c.variance_millicelsius == v,
                None => c.variance_millicelsius == 5000i64,
            }),
            (match partial.interval_ms {
                Some(v) => c.interval_ms == v,
                None => c.interval_ms == 1500u64,
            }),
            (match partial.variance_millicelsius {
                Some(v) => c.wf() == (v >= 0),
                None => c.wf(),
            }),
    {
        let temp_path = match partial.temp_path {
            Some(p) => p,
            None => default_temp_path(),
        };
        let gpio_line = match partial.gpio_line {
            Some(v) => v,
            None => default_gpio_line(),
        };
        let gpio_chip = match partial.gpio_chip {
            Some(p) => p,
            None => default_gpio_chip(),
        };
        let log_path = match partial.log_path {
            Some(p) => p,
            None => default_log_path(),
        };
        let threshold_millicelsius = match partial.threshold_millicelsius {
            Some(v) => v,
            None => default_threshold_millicelsius(),
        };
        let variance_millicelsius = match partial.variance_millicelsius {
            Some(v) => v,
            None => default_variance_millicelsius(),
        };
        let interval_ms = match partial.interval_ms {
            Some(v) => v,
            None => default_interval_ms(),
        };
        Config {
            temp_path,
            gpio_line,
            gpio_chip,
            log_path,
            threshold_millicelsius,
            variance_millicelsius,
            interval_ms,
        }
    }
}

pub fn default_temp_path() -> (s: String)
    ensures
        s@ == "/sys/class/thermal/thermal_zone0/temp"@,
{
    "/sys/class/thermal/thermal_zone0/temp".to_owned()
}

pub fn default_gpio_line() -> (n: u32)
    ensures
        n == 17u32,
{
    17
}

pub fn default_gpio_chip() -> (s: String)
    ensures
        s@ == "/dev/gpiochip0"@,
{
    "/dev/gpiochip0".to_owned()
}

pub fn default_log_path() -> (s: String)
    ensures
        s@ == "/var/log/fan_control.log"@,
{
    "/var/log/fan_control.log".to_owned()
}

pub fn default_threshold_millicelsius() -> (n: i64)
    ensures
        n == 55000i64,
{
    55000
}

pub fn default_variance_millicelsius() -> (n: i64)
    ensures
        n == 5000i64,
{
    5000
}

pub fn default_interval_ms() -> (n: u64)
    ensures
        n == 1500u64,
{
    1500
}

} // verus!
