//! Synthetic sensor model: tagged per-sensor values in fixed-point
//! integer units, per-sensor state, and the documented default suite.
//!
//! Units: GPS coordinates in microdegrees, altitude and accuracy in
//! centimeters; three-axis sensors in thousandths of their unit; proximity
//! distance in millimeters; illuminance in millilux. Update frequencies
//! are in millihertz and noise levels in thousandths of the unit.

use vstd::prelude::*;
use crate::strutil::str_eq;

verus! {

/// The closed set of sensors the engine knows.
#[derive(Debug, Clone, Copy, PartialEq, Eq, Structural)]
pub enum SensorKind {
    Gps,
    Accelerometer,
    Gyroscope,
    Magnetometer,
    Proximity,
    Light,
}

/// One sensor reading; the shape depends on the sensor.
#[derive(Debug, Clone, Copy, PartialEq, Eq, Structural)]
pub enum SensorValue {
    /// A position fix: microdegrees, centimeters.
    Gps { lat_e6: i64, lon_e6: i64, alt_cm: i64, accuracy_cm: i64 },
    /// A three-axis reading in thousandths of the sensor's unit, as the
    /// accelerometer, gyroscope and magnetometer report it.
    Axes { x_milli: i64, y_milli: i64, z_milli: i64 },
    /// A proximity reading: distance in millimeters and the near flag.
    Proximity { distance_mm: i64, near: bool },
    /// An ambient light reading in millilux.
    Light { millilux: i64 },
}

/// Whether a value has the shape the sensor expects.
pub open spec fn spec_value_matches_kind(v: SensorValue, k: SensorKind) -> bool {
    match v {
        SensorValue::Gps { .. } => k == SensorKind::Gps,
        SensorValue::Axes { .. } => k == SensorKind::Accelerometer || k == SensorKind::Gyroscope
            || k == SensorKind::Magnetometer,
        SensorValue::Proximity { .. } => k == SensorKind::Proximity,
        SensorValue::Light { .. } => k == SensorKind::Light,
    }
}

pub fn value_matches_kind(v: &SensorValue, k: SensorKind) -> (r: bool)
    ensures
        r == spec_value_matches_kind(*v, k),
{
    match v {
        SensorValue::Gps { .. } => k == SensorKind::Gps,
        SensorValue::Axes { .. } => k == SensorKind::Accelerometer || k == SensorKind::Gyroscope
            || k == SensorKind::Magnetometer,
        SensorValue::Proximity { .. } => k == SensorKind::Proximity,
        SensorValue::Light { .. } => k == SensorKind::Light,
    }
}

/// The sensor a name denotes, if any.
pub open spec fn spec_sensor_kind(name: Seq<char>) -> Option<SensorKind> {
    if name == "gps"@ {
        Some(SensorKind::Gps)
    } else if name == "accelerometer"@ {
        Some(SensorKind::Accelerometer)
    } else if name == "gyroscope"@ {
        Some(SensorKind::Gyroscope)
    } else if name == "magnetometer"@ {
        Some(SensorKind::Magnetometer)
    } else if name == "proximity"@ {
        Some(SensorKind::Proximity)
    } else if name == "light"@ {
        Some(SensorKind::Light)
    } else {
        None
    }
}

pub fn sensor_kind_of_name(name: &str) -> (r: Option<SensorKind>)
    ensures
        r == spec_sensor_kind(name@),
{
    if str_eq(name, "gps") {
        Some(SensorKind::Gps)
    } else if str_eq(name, "accelerometer") {
        Some(SensorKind::Accelerometer)
    } else if str_eq(name, "gyroscope") {
        Some(SensorKind::Gyroscope)
    } else if str_eq(name, "magnetometer") {
        Some(SensorKind::Magnetometer)
    } else if str_eq(name, "proximity") {
        Some(SensorKind::Proximity)
    } else if str_eq(name, "light") {
        Some(SensorKind::Light)
    } else {
        None
    }
}

/// Per-sensor state: whether it is enabled, its current value, its
/// simulation cadence in millihertz, and its noise bound in thousandths.
#[derive(Debug, Clone, Copy, PartialEq, Eq, Structural)]
pub struct SensorState {
    pub enabled: bool,
    pub current_value: SensorValue,
    pub update_frequency_mhz: u32,
    pub noise_level_milli: u32,
}

/// The full sensor suite one attached endpoint carries.
#[derive(Debug, Clone, Copy, PartialEq, Eq, Structural)]
pub struct SensorSuite {
    pub gps: SensorState,
    pub accelerometer: SensorState,
    pub gyroscope: SensorState,
    pub magnetometer: SensorState,
    pub proximity: SensorState,
    pub light: SensorState,
}

/// The documented defaults every attach establishes: a fixed position
/// fix, gravity on the accelerometer's z axis, a still gyroscope, a fixed
/// magnetic field, a far proximity reading and indoor light.
pub open spec fn spec_default_suite() -> SensorSuite {
    SensorSuite {
        gps: SensorState {
            enabled: true,
            current_value: SensorValue::Gps {
                lat_e6: 37774900,
                lon_e6: -122419400i64,
                alt_cm: 5200,
                accuracy_cm: 500,
            },
            update_frequency_mhz: 1000,
            noise_level_milli: 100,
        },
        accelerometer: SensorState {
            enabled: true,
            current_value: SensorValue::Axes { x_milli: 0, y_milli: 0, z_milli: -9800i64 },
            update_frequency_mhz: 50000,
            noise_level_milli: 10,
        },
        gyroscope: SensorState {
            enabled: true,
            current_value: SensorValue::Axes { x_milli: 0, y_milli: 0, z_milli: 0 },
            update_frequency_mhz: 50000,
            noise_level_milli: 5,
        },
        magnetometer: SensorState {
            enabled: true,
            current_value: SensorValue::Axes { x_milli: 23100, y_milli: -45200i64, z_milli: 12700 },
            update_frequency_mhz: 10000,
            noise_level_milli: 100,
        },
        proximity: SensorState {
            enabled: true,
            current_value: SensorValue::Proximity { distance_mm: 50, near: false },
            update_frequency_mhz: 5000,
            noise_level_milli: 50,
        },
        light: SensorState {
            enabled: true,
            current_value: SensorValue::Light { millilux: 300000 },
            update_frequency_mhz: 2000,
            noise_level_milli: 10000,
        },
    }
}

pub fn default_suite() -> (r: SensorSuite)
    ensures
        r == spec_default_suite(),
{
    SensorSuite {
        gps: SensorState {
            enabled: true,
            current_value: SensorValue::Gps {
                lat_e6: 37774900,
                lon_e6: -122419400,
                alt_cm: 5200,
                accuracy_cm: 500,
            },
            update_frequency_mhz: 1000,
            noise_level_milli: 100,
        },
        accelerometer: SensorState {
            enabled: true,
            current_value: SensorValue::Axes { x_milli: 0, y_milli: 0, z_milli: -9800 },
            update_frequency_mhz: 50000,
            noise_level_milli: 10,
        },
        gyroscope: SensorState {
            enabled: true,
            current_value: SensorValue::Axes { x_milli: 0, y_milli: 0, z_milli: 0 },
            update_frequency_mhz: 50000,
            noise_level_milli: 5,
        },
        magnetometer: SensorState {
            enabled: true,
            current_value: SensorValue::Axes { x_milli: 23100, y_milli: -45200, z_milli: 12700 },
            update_frequency_mhz: 10000,
            noise_level_milli: 100,
        },
        proximity: SensorState {
            enabled: true,
            current_value: SensorValue::Proximity { distance_mm: 50, near: false },
            update_frequency_mhz: 5000,
            noise_level_milli: 50,
        },
        light: SensorState {
            enabled: true,
            current_value: SensorValue::Light { millilux: 300000 },
            update_frequency_mhz: 2000,
            noise_level_milli: 10000,
        },
    }
}

impl SensorSuite {
    /// The state of one sensor.
    pub open spec fn spec_get(self, k: SensorKind) -> SensorState {
        match k {
            SensorKind::Gps => self.gps,
            SensorKind::Accelerometer => self.accelerometer,
            SensorKind::Gyroscope => self.gyroscope,
            SensorKind::Magnetometer => self.magnetometer,
            SensorKind::Proximity => self.proximity,
            SensorKind::Light => self.light,
        }
    }

    #[verifier::when_used_as_spec(spec_get)]
    pub fn get(self, k: SensorKind) -> (r: SensorState)
        ensures
            r == self.spec_get(k),
    {
        match k {
            SensorKind::Gps => self.gps,
            SensorKind::Accelerometer => self.accelerometer,
            SensorKind::Gyroscope => self.gyroscope,
            SensorKind::Magnetometer => self.magnetometer,
            SensorKind::Proximity => self.proximity,
            SensorKind::Light => self.light,
        }
    }

    /// The suite with one sensor's state replaced.
    pub open spec fn spec_set(self, k: SensorKind, st: SensorState) -> SensorSuite {
        match k {
            SensorKind::Gps => SensorSuite { gps: st, ..self },
            SensorKind::Accelerometer => SensorSuite { accelerometer: st, ..self },
            SensorKind::Gyroscope => SensorSuite { gyroscope: st, ..self },
            SensorKind::Magnetometer => SensorSuite { magnetometer: st, ..self },
            SensorKind::Proximity => SensorSuite { proximity: st, ..self },
            SensorKind::Light => SensorSuite { light: st, ..self },
        }
    }

    pub fn set(self, k: SensorKind, st: SensorState) -> (r: SensorSuite)
        ensures
            r == self.spec_set(k, st),
    {
        match k {
            SensorKind::Gps => SensorSuite { gps: st, ..self },
            SensorKind::Accelerometer => SensorSuite { accelerometer: st, ..self },
            SensorKind::Gyroscope => SensorSuite { gyroscope: st, ..self },
            SensorKind::Magnetometer => SensorSuite { magnetometer: st, ..self },
            SensorKind::Proximity => SensorSuite { proximity: st, ..self },
            SensorKind::Light => SensorSuite { light: st, ..self },
        }
    }

    /// Whether any enabled sensor asks for periodic simulation.
    pub open spec fn spec_any_simulated(self) -> bool {
        ||| (self.gps.enabled && self.gps.update_frequency_mhz > 0)
        ||| (self.accelerometer.enabled && self.accelerometer.update_frequency_mhz > 0)
        ||| (self.gyroscope.enabled && self.gyroscope.update_frequency_mhz > 0)
        ||| (self.magnetometer.enabled && self.magnetometer.update_frequency_mhz > 0)
        ||| (self.proximity.enabled && self.proximity.update_frequency_mhz > 0)
        ||| (self.light.enabled && self.light.update_frequency_mhz > 0)
    }

    pub fn any_simulated(&self) -> (r: bool)
        ensures
            r == self.spec_any_simulated(),
    {
        (self.gps.enabled && self.gps.update_frequency_mhz > 0) || (self.accelerometer.enabled
            && self.accelerometer.update_frequency_mhz > 0) || (self.gyroscope.enabled
            && self.gyroscope.update_frequency_mhz > 0) || (self.magnetometer.enabled
            && self.magnetometer.update_frequency_mhz > 0) || (self.proximity.enabled
            && self.proximity.update_frequency_mhz > 0) || (self.light.enabled
            && self.light.update_frequency_mhz > 0)
    }
}

/// The period of one simulation cadence, in milliseconds: a frequency
/// in millihertz divides the million milliseconds of its unit; a zero
/// cadence asks for no ticks and has no period.
pub open spec fn spec_tick_interval_ms(freq_mhz: u32) -> u64 {
    if freq_mhz == 0 {
        0
    } else {
        (1000000u64 / freq_mhz as u64) as u64
    }
}

pub fn tick_interval_ms(update_frequency_mhz: u32) -> (r: u64)
    ensures
        r == spec_tick_interval_ms(update_frequency_mhz),
{
    if update_frequency_mhz == 0 {
        0
    } else {
        1000000u64 / (update_frequency_mhz as u64)
    }
}

/// Addition clamped to the i64 range.
pub open spec fn spec_sat_add(a: int, b: int) -> int {
    let s = a + b;
    if s > i64::MAX as int {
        i64::MAX as int
    } else if s < i64::MIN as int {
        i64::MIN as int
    } else {
        s
    }
}

pub fn sat_add(a: i64, b: i64) -> (r: i64)
    ensures
        r as int == spec_sat_add(a as int, b as int),
{
    match a.checked_add(b) {
        Some(s) => s,
        None => {
            if b > 0 {
                i64::MAX
            } else {
                i64::MIN
            }
        },
    }
}

/// One simulated drift step: the perturbation is added to every
/// continuous component of the value, clamped to the integer range;
/// illuminance does not fall below zero, and the proximity near flag is
/// untouched.
pub open spec fn spec_apply_drift(v: SensorValue, d: int) -> SensorValue {
    match v {
        SensorValue::Gps { lat_e6, lon_e6, alt_cm, accuracy_cm } => SensorValue::Gps {
            lat_e6: spec_sat_add(lat_e6 as int, d) as i64,
            lon_e6: spec_sat_add(lon_e6 as int, d) as i64,
            alt_cm,
            accuracy_cm,
        },
        SensorValue::Axes { x_milli, y_milli, z_milli } => SensorValue::Axes {
            x_milli: spec_sat_add(x_milli as int, d) as i64,
            y_milli: spec_sat_add(y_milli as int, d) as i64,
            z_milli: spec_sat_add(z_milli as int, d) as i64,
        },
        SensorValue::Proximity { distance_mm, near } => SensorValue::Proximity {
            distance_mm: spec_sat_add(distance_mm as int, d) as i64,
            near,
        },
        SensorValue::Light { millilux } => SensorValue::Light {
            millilux: if spec_sat_add(millilux as int, d) < 0 {
                0
            } else {
                spec_sat_add(millilux as int, d) as i64
            },
        },
    }
}

pub fn apply_drift(v: &SensorValue, d: i64) -> (r: SensorValue)
    ensures
        r == spec_apply_drift(*v, d as int),
{
    match v {
        SensorValue::Gps { lat_e6, lon_e6, alt_cm, accuracy_cm } => SensorValue::Gps {
            lat_e6: sat_add(*lat_e6, d),
            lon_e6: sat_add(*lon_e6, d),
            alt_cm: *alt_cm,
            accuracy_cm: *accuracy_cm,
        },
        SensorValue::Axes { x_milli, y_milli, z_milli } => SensorValue::Axes {
            x_milli: sat_add(*x_milli, d),
            y_milli: sat_add(*y_milli, d),
            z_milli: sat_add(*z_milli, d),
        },
        SensorValue::Proximity { distance_mm, near } => SensorValue::Proximity {
            distance_mm: sat_add(*distance_mm, d),
            near: *near,
        },
        SensorValue::Light { millilux } => {
            let shifted = sat_add(*millilux, d);
            SensorValue::Light { millilux: if shifted < 0 { 0 } else { shifted } }
        },
    }
}

} // verus!
