//! Decoder for telemetry log pages captured by a flight computer's onboard
//! recorder.
//!
//! A page is an independently framed byte buffer: a fixed four-byte magic
//! header followed by records framed with doubled tag bytes. Each record
//! carries fixed-width little-endian sensor readings (high-g accelerometer,
//! gyroscope, barometer). The library validates the header, resynchronizes on
//! the doubled-tag framing, decodes each record, converts raw counts into
//! exact integer-scaled physical units, and reduces the decoded samples to
//! summary extrema.

pub mod cursor;
pub mod errors;
pub mod frame;
pub mod laws;
pub mod page_text;
pub mod sample;
pub mod stats;
