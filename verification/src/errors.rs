//! The error taxonomy of the library.

use vstd::prelude::*;

use crate::types::ReplaySection;

verus! {

/// Why a bounded decompression was aborted.
#[derive(Debug, Copy, Clone, PartialEq, Eq, Structural)]
pub enum DecompressionError {
    /// The decoded stream would have exceeded the configured output cap.
    SizeLimitExceeded,
    /// The decoded output exceeded the configured output/input ratio.
    CompressionRatioExceeded,
    /// Decompression ran longer than the configured time limit.
    TimeoutExceeded,
    /// The compressed stream itself could not be decoded (truncated or
    /// corrupt data).
    Io,
}

/// Why the embedded-metadata section could not be parsed.
#[derive(Debug, Copy, Clone, PartialEq, Eq, Structural)]
pub enum ShieldBatteryDataError {
    /// The record ended before a fixed-length field could be read.
    UnexpectedEof,
}

/// Why a replay could not be parsed.
#[derive(Debug, Copy, Clone)]
pub enum BroodrepError {
    /// The stream ended where more bytes were required.
    IoError,
    /// The container or header is structurally invalid; the payload names the
    /// offending part.
    MalformedHeader(&'static str),
    /// A section body could not be decompressed within the configured limits.
    Decompression(DecompressionError),
    /// Two sections with the same identity were found while indexing.
    DuplicateSection(ReplaySection),
    /// The embedded-metadata section was present but unparsable.
    ShieldBatteryData(ShieldBatteryDataError),
}

} // verus!
