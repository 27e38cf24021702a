//! Recording: the formats and what is known of a running recording.

use vstd::prelude::*;

verus! {

/// The formats that a recording can be written in.
#[derive(Debug, Clone, Copy, PartialEq, Eq, Structural)]
pub enum RecordingFormat {
    /// Uncompressed.
    Wav,
    /// Compressed without loss.
    Flac,
    /// Compressed with loss.
    Ogg,
}

/// A recording that runs.
#[derive(Debug, Clone)]
pub struct ActiveRecording {
    /// The bus or strip that is recorded.
    pub source_id: String,
    /// The format.
    pub format: RecordingFormat,
    /// Where the recording is written.
    pub path: String,
    /// When the recording started, in seconds of the Unix epoch.
    pub start_time: u64,
    /// The samples written so far.
    pub samples_written: usize,
}

} // verus!
