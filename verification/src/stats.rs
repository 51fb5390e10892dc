//! Reduction of a sample store to its summary extrema.
//!
//! Acceleration magnitudes are compared by their squared value in raw
//! counts: squaring, and the scaling from counts to g-units, are both
//! strictly monotonic on magnitudes, so the extrema of the squared raw
//! values pick out exactly the samples with extreme physical magnitude, and
//! the caller can take the square root and scale afterwards. Pressure is
//! compared directly in pascals.
//!
//! Each extremum is `None` exactly when the page stream held no sample of
//! the relevant kind: an empty subset has no extrema, and that condition is
//! signalled rather than defaulted to a number.

use vstd::prelude::*;

use crate::sample::Sample;
use crate::sample::SampleData;

verus! {

/// The squared magnitude of a three-axis reading.
pub open spec fn spec_mag_sq(x: int, y: int, z: int) -> int {
    x * x + y * y + z * z
}

/// Whether the sample is an accelerometer reading.
pub open spec fn spec_is_accel(s: Sample) -> bool {
    s.data is HighGAccelerometer
}

/// Whether the sample is a barometer reading.
pub open spec fn spec_is_baro(s: Sample) -> bool {
    s.data is Barometer
}

/// The squared magnitude of an accelerometer sample, in raw counts.
pub open spec fn spec_accel_mag_sq(s: Sample) -> int {
    match s.data {
        SampleData::HighGAccelerometer { x, y, z } => spec_mag_sq(x as int, y as int, z as int),
        _ => 0,
    }
}

/// The pressure of a barometer sample, in pascals.
pub open spec fn spec_pressure(s: Sample) -> int {
    match s.data {
        SampleData::Barometer { temperature, pressure } => pressure as int,
        _ => 0,
    }
}

/// The four summary scalars of a run, each absent when no sample of its
/// kind was decoded.
#[derive(Debug, Clone, Copy, PartialEq, Eq)]
pub struct Extrema {
    /// Largest squared acceleration magnitude, in raw counts.
    pub max_accel_magnitude_sq: Option<i64>,
    /// Smallest squared acceleration magnitude, in raw counts.
    pub min_accel_magnitude_sq: Option<i64>,
    /// Largest barometric pressure, in pascals.
    pub max_pressure: Option<i32>,
    /// Smallest barometric pressure, in pascals.
    pub min_pressure: Option<i32>,
}

/// The squared magnitude of a raw three-axis reading, computed exactly.
pub fn accel_magnitude_sq(x: i16, y: i16, z: i16) -> (r: i64)
    ensures
        r == spec_mag_sq(x as int, y as int, z as int),
{
    let xl = x as i64;
    let yl = y as i64;
    let zl = z as i64;
    proof {
        assert(0 <= xl * xl <= 1073741824) by (nonlinear_arith)
            requires
                -32768 <= xl <= 32767,
        ;
        assert(0 <= yl * yl <= 1073741824) by (nonlinear_arith)
            requires
                -32768 <= yl <= 32767,
        ;
        assert(0 <= zl * zl <= 1073741824) by (nonlinear_arith)
            requires
                -32768 <= zl <= 32767,
        ;
    }
    xl * xl + yl * yl + zl * zl
}

/// Scans the whole sample store once and reports, over all accelerometer
/// samples, the largest and smallest squared magnitude, and over all
/// barometer samples, the largest and smallest pressure.
///
/// Every extremum is attained by some sample of its kind and bounds all of
/// them; it is `None` exactly when the store holds no sample of that kind,
/// so an empty subset is signalled and never reported as a number.
pub fn aggregate(samples: &Vec<Sample>) -> (r: Extrema)
    ensures
        (r.max_accel_magnitude_sq is None) <==> (forall|i: int|
            0 <= i < samples@.len() ==> !spec_is_accel(#[trigger] samples@[i])),
        (r.min_accel_magnitude_sq is None) <==> (forall|i: int|
            0 <= i < samples@.len() ==> !spec_is_accel(#[trigger] samples@[i])),
        (r.max_pressure is None) <==> (forall|i: int|
            0 <= i < samples@.len() ==> !spec_is_baro(#[trigger] samples@[i])),
        (r.min_pressure is None) <==> (forall|i: int|
            0 <= i < samples@.len() ==> !spec_is_baro(#[trigger] samples@[i])),
        r.max_accel_magnitude_sq matches Some(m) ==> (exists|i: int|
            0 <= i < samples@.len() && spec_is_accel(#[trigger] samples@[i])
                && spec_accel_mag_sq(samples@[i]) == m) && (forall|i: int|
            0 <= i < samples@.len() && spec_is_accel(#[trigger] samples@[i])
                ==> spec_accel_mag_sq(samples@[i]) <= m),
        r.min_accel_magnitude_sq matches Some(m) ==> (exists|i: int|
            0 <= i < samples@.len() && spec_is_accel(#[trigger] samples@[i])
                && spec_accel_mag_sq(samples@[i]) == m) && (forall|i: int|
            0 <= i < samples@.len() && spec_is_accel(#[trigger] samples@[i])
                ==> spec_accel_mag_sq(samples@[i]) >= m),
        r.max_pressure matches Some(p) ==> (exists|i: int|
            0 <= i < samples@.len() && spec_is_baro(#[trigger] samples@[i]) && spec_pressure(
                samples@[i],
            ) == p) && (forall|i: int|
            0 <= i < samples@.len() && spec_is_baro(#[trigger] samples@[i]) ==> spec_pressure(
                samples@[i],
            ) <= p),
        r.min_pressure matches Some(p) ==> (exists|i: int|
            0 <= i < samples@.len() && spec_is_baro(#[trigger] samples@[i]) && spec_pressure(
                samples@[i],
            ) == p) && (forall|i: int|
            0 <= i < samples@.len() && spec_is_baro(#[trigger] samples@[i]) ==> spec_pressure(
                samples@[i],
            ) >= p),
{
    let mut max_a: Option<i64> = None;
    let mut min_a: Option<i64> = None;
    let mut max_p: Option<i32> = None;
    let mut min_p: Option<i32> = None;
    let mut idx: usize = 0;
    while idx < samples.len()
        invariant
            0 <= idx <= samples@.len(),
            (max_a is None) <==> (forall|i: int|
                0 <= i < idx ==> !spec_is_accel(#[trigger] samples@[i])),
            (min_a is None) <==> (forall|i: int|
                0 <= i < idx ==> !spec_is_accel(#[trigger] samples@[i])),
            (max_p is None) <==> (forall|i: int|
                0 <= i < idx ==> !spec_is_baro(#[trigger] samples@[i])),
            (min_p is None) <==> (forall|i: int|
                0 <= i < idx ==> !spec_is_baro(#[trigger] samples@[i])),
            max_a matches Some(m) ==> (exists|i: int|
                0 <= i < idx && spec_is_accel(#[trigger] samples@[i]) && spec_accel_mag_sq(
                    samples@[i],
                ) == m) && (forall|i: int|
                0 <= i < idx && spec_is_accel(#[trigger] samples@[i]) ==> spec_accel_mag_sq(
                    samples@[i],
                ) <= m),
            min_a matches Some(m) ==> (exists|i: int|
                0 <= i < idx && spec_is_accel(#[trigger] samples@[i]) && spec_accel_mag_sq(
                    samples@[i],
                ) == m) && (forall|i: int|
                0 <= i < idx && spec_is_accel(#[trigger] samples@[i]) ==> spec_accel_mag_sq(
                    samples@[i],
                ) >= m),
            max_p matches Some(p) ==> (exists|i: int|
                0 <= i < idx && spec_is_baro(#[trigger] samples@[i]) && spec_pressure(samples@[i])
                    == p) && (forall|i: int|
                0 <= i < idx && spec_is_baro(#[trigger] samples@[i]) ==> spec_pressure(samples@[i])
                    <= p),
            min_p matches Some(p) ==> (exists|i: int|
                0 <= i < idx && spec_is_baro(#[trigger] samples@[i]) && spec_pressure(samples@[i])
                    == p) && (forall|i: int|
                0 <= i < idx && spec_is_baro(#[trigger] samples@[i]) ==> spec_pressure(samples@[i])
                    >= p),
        decreases samples@.len() - idx,
    {
        let s = samples[idx];
        match s.data {
            SampleData::HighGAccelerometer { x, y, z } => {
                let m = accel_magnitude_sq(x, y, z);
                max_a = match max_a {
                    Some(cur) => if m > cur {
                        Some(m)
                    } else {
                        Some(cur)
                    },
                    None => Some(m),
                };
                min_a = match min_a {
                    Some(cur) => if m < cur {
                        Some(m)
                    } else {
                        Some(cur)
                    },
                    None => Some(m),
                };
            },
            SampleData::Barometer { temperature: _, pressure } => {
                max_p = match max_p {
                    Some(cur) => if pressure > cur {
                        Some(pressure)
                    } else {
                        Some(cur)
                    },
                    None => Some(pressure),
                };
                min_p = match min_p {
                    Some(cur) => if pressure < cur {
                        Some(pressure)
                    } else {
                        Some(cur)
                    },
                    None => Some(pressure),
                };
            },
            SampleData::Gyro { x: _, y: _, z: _ } => {},
        }
        idx = idx + 1;
    }
    Extrema {
        max_accel_magnitude_sq: max_a,
        min_accel_magnitude_sq: min_a,
        max_pressure: max_p,
        min_pressure: min_p,
    }
}

} // verus!
