//! The immutable creation parameters of one recording session.

use vstd::prelude::*;

verus! {

/// The creation parameters of one recording session.
///
/// The id must stay below 10000 so that the derived display number and
/// audio-server port stay in their valid ranges, and at least one encode
/// sink (a directory for a file-based recording, or a network target)
/// must be given. [`EngineConfig::valid`] states this; the engine rejects
/// an invalid configuration before launching anything.
pub struct EngineConfig {
    /// The session id; it uniquely determines the display namespace and
    /// the audio-server port.
    pub id: u32,
    /// The frame size, width by height, of the virtual display.
    pub size: (u32, u32),
    /// The URL the automation browser records.
    pub url: String,
    /// The directory a file-based recording is written under, if any.
    pub encode_dir: Option<String>,
    /// The network target the encoded stream is sent to, if any.
    pub encode_rtmp: Option<String>,
    /// Whether to also run a local, never persisted, preview pipeline.
    pub gst_debug: bool,
    /// The bound, in milliseconds, on the end-of-stream wait during
    /// shutdown.
    pub eos_timeout_ms: u32,
}

impl EngineConfig {
    /// Whether the configuration can start a session: the id keeps the
    /// derived display and port numbers in range, there is at least one
    /// encode sink, and the end-of-stream wait is bounded by a positive
    /// timeout.
    pub open spec fn valid(self) -> bool {
        &&& self.id < 10000
        &&& self.encode_dir is Some || self.encode_rtmp is Some
        &&& self.eos_timeout_ms > 0
    }

    /// Checks [`EngineConfig::valid`].
    pub fn validate(&self) -> (r: bool)
        ensures
            r == self.valid(),
    {
        self.id < 10000 && (self.encode_dir.is_some() || self.encode_rtmp.is_some())
            && self.eos_timeout_ms > 0
    }
}

} // verus!
