//! Error kinds raised while decoding a telemetry page.

use vstd::prelude::*;

verus! {

/// Failure conditions of the page decoder.
///
/// `BufferUnderflow` is the only recoverable kind: at the framing loop it
/// marks the clean end of a page. The others are fatal for the page.
#[derive(Debug, Clone, Copy, PartialEq, Eq, Structural)]
pub enum FrameError {
    /// A magic-header byte did not match: `expected` was required at `index`,
    /// but `got` was found.
    Unexpected { expected: u8, got: u8, index: usize },
    /// Fewer bytes remain than the requested read needs.
    BufferUnderflow,
    /// A properly doubled tag byte outside the known sensor tags, first seen
    /// at `index`.
    UnknownTag { tag: u8, index: usize },
}

/// Failure conditions of decoding one line of page text.
#[derive(Debug, Clone, Copy, PartialEq, Eq, Structural)]
pub enum PageTextError {
    /// The line is not valid standard-alphabet base64.
    InvalidBase64,
    /// The decoded bytes were rejected by the page decoder.
    Frame(FrameError),
}

} // verus!
