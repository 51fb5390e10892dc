//! Decoded sensor samples and the raw-count to physical-unit conversion.
//!
//! Accelerometer and gyroscope readings are kept as the raw signed counts
//! from the wire; the sensors' full-scale ranges below fix the meaning of a
//! count (a reading of `RAW_FULL_SCALE` counts is `ACCEL_FULL_SCALE_G`
//! g-units, or `GYRO_FULL_SCALE_DPS` degrees per second). The scale factors
//! are not whole numbers, so the division into physical units is left to the
//! caller that displays the value; every ordering question can be settled on
//! the raw counts, because the conversion is strictly monotonic.
//!
//! Barometer readings convert exactly: the wire carries hundredths of a
//! degree Celsius, so hundredths of a kelvin (centikelvin) represent the
//! converted temperature without loss, and pressure is already in pascals.

use vstd::prelude::*;

verus! {

/// Raw counts at the sensors' full-scale reading.
pub const RAW_FULL_SCALE: i64 = 32767;

/// The accelerometer's full-scale range, in g-units.
pub const ACCEL_FULL_SCALE_G: i64 = 6;

/// The gyroscope's full-scale range, in degrees per second.
pub const GYRO_FULL_SCALE_DPS: i64 = 2000;

/// Zero degrees Celsius, in hundredths of a kelvin.
pub const ZERO_CELSIUS_CENTIKELVIN: i64 = 27315;

/// One sensor reading, by sensor kind.
#[derive(Debug, Clone, Copy, PartialEq, Eq, Structural)]
pub enum SampleData {
    /// High-g accelerometer axes, in raw counts of the ±6 g range.
    HighGAccelerometer { x: i16, y: i16, z: i16 },
    /// Gyroscope axes, in raw counts of the ±2000 degree-per-second range.
    Gyro { x: i16, y: i16, z: i16 },
    /// Barometer reading: temperature in centikelvin, pressure in pascals.
    Barometer { temperature: i64, pressure: i32 },
}

/// One decoded record: a reading plus the tick counter carried with it.
///
/// In this protocol version every record is one tick after the one before,
/// so the counter is fixed at 1; the field exists for forward compatibility
/// with variable-rate logging.
#[derive(Debug, Clone, Copy, PartialEq, Eq, Structural)]
pub struct Sample {
    pub ticks_since_last_message: u16,
    pub data: SampleData,
}

/// The sample an accelerometer record with the given raw axes decodes to.
pub open spec fn spec_accel_sample(x: i16, y: i16, z: i16) -> Sample {
    Sample { ticks_since_last_message: 1, data: SampleData::HighGAccelerometer { x, y, z } }
}

/// The sample a gyroscope record with the given raw axes decodes to.
pub open spec fn spec_gyro_sample(x: i16, y: i16, z: i16) -> Sample {
    Sample { ticks_since_last_message: 1, data: SampleData::Gyro { x, y, z } }
}

/// The temperature in centikelvin converted from a raw reading in
/// hundredths of a degree Celsius.
pub open spec fn spec_centikelvin(raw_temp: i32) -> int {
    raw_temp + ZERO_CELSIUS_CENTIKELVIN
}

/// The sample a barometer record with the given raw fields decodes to.
pub open spec fn spec_baro_sample(raw_temp: i32, pressure: i32) -> Sample {
    Sample {
        ticks_since_last_message: 1,
        data: SampleData::Barometer {
            temperature: spec_centikelvin(raw_temp) as i64,
            pressure,
        },
    }
}

/// Builds the accelerometer sample for three raw axis readings.
pub fn convert_accel(x: i16, y: i16, z: i16) -> (s: Sample)
    ensures
        s == spec_accel_sample(x, y, z),
{
    Sample { ticks_since_last_message: 1, data: SampleData::HighGAccelerometer { x, y, z } }
}

/// Builds the gyroscope sample for three raw axis readings.
pub fn convert_gyro(x: i16, y: i16, z: i16) -> (s: Sample)
    ensures
        s == spec_gyro_sample(x, y, z),
{
    Sample { ticks_since_last_message: 1, data: SampleData::Gyro { x, y, z } }
}

/// Builds the barometer sample for a raw temperature (hundredths of a degree
/// Celsius) and a pressure in pascals, converting the temperature exactly to
/// centikelvin.
pub fn convert_baro(raw_temp: i32, pressure: i32) -> (s: Sample)
    ensures
        s == spec_baro_sample(raw_temp, pressure),
{
    let temperature: i64 = raw_temp as i64 + ZERO_CELSIUS_CENTIKELVIN;
    Sample { ticks_since_last_message: 1, data: SampleData::Barometer { temperature, pressure } }
}

} // verus!
