//! The failure taxonomy of the session lifecycle, and the text payloads
//! reported to callers.

use vstd::prelude::*;
use crate::address::dec_digits;
use crate::address::u32_to_dec;
use vstd::string::StringExecFns;

verus! {

/// One external resource owned by a session.
#[derive(Clone, Copy, PartialEq, Eq, Structural, Debug)]
pub enum ResourceKind {
    /// The session message-bus broker process.
    Dbus,
    /// The virtual display server process.
    Xvfb,
    /// The audio server process.
    Pulse,
    /// The automation browser.
    Browser,
    /// The optional local preview pipeline.
    DebugPipeline,
    /// The encoding pipeline that writes the recording.
    EncodePipeline,
}

/// The teardown steps, in the order `stop` attempts them.
#[derive(Clone, Copy, PartialEq, Eq, Structural, Debug)]
pub enum StopStep {
    /// Send an end-of-stream request into the encode pipeline.
    SendEos,
    /// Wait, boundedly, for the end-of-stream signal.
    AwaitEos,
    /// Transition the preview pipeline to an inert state.
    StopDebugPipeline,
    /// Transition the encode pipeline to an inert state.
    StopEncodePipeline,
    /// Release the browser handle, closing the browser process.
    ReleaseBrowser,
    /// Terminate the virtual display server and wait for its exit.
    StopXvfb,
    /// Terminate the audio server and wait for its exit.
    StopPulse,
    /// Terminate the message-bus broker and wait for its exit.
    StopDbus,
}

/// Everything that a spawn or stop request can report to its caller.
#[derive(Clone, Copy, PartialEq, Eq, Structural, Debug)]
pub enum EngineError {
    /// The configuration was rejected before anything was launched.
    InvalidConfig,
    /// A resource failed to start; the spawn was aborted.
    LaunchFailure(ResourceKind),
    /// The browser started but never finished loading the target URL.
    NavigationFailure,
    /// A stop request named an id with no live session.
    NotFound(u32),
    /// A spawn request named an id that is already live.
    Conflict(u32),
    /// One or more teardown steps failed; the first one is recorded.
    ShutdownPartialFailure(StopStep),
}

impl ResourceKind {
    /// The human-readable name of the resource.
    pub open spec fn name_spec(self) -> Seq<char> {
        match self {
            ResourceKind::Dbus => "dbus-daemon"@,
            ResourceKind::Xvfb => "Xvfb"@,
            ResourceKind::Pulse => "pulseaudio"@,
            ResourceKind::Browser => "browser"@,
            ResourceKind::DebugPipeline => "debug pipeline"@,
            ResourceKind::EncodePipeline => "encode pipeline"@,
        }
    }

    /// The human-readable name of the resource.
    pub fn name(&self) -> (r: &'static str)
        ensures
            r@ == self.name_spec(),
    {
        match self {
            ResourceKind::Dbus => "dbus-daemon",
            ResourceKind::Xvfb => "Xvfb",
            ResourceKind::Pulse => "pulseaudio",
            ResourceKind::Browser => "browser",
            ResourceKind::DebugPipeline => "debug pipeline",
            ResourceKind::EncodePipeline => "encode pipeline",
        }
    }
}

impl StopStep {
    /// The human-readable name of the teardown step.
    pub open spec fn name_spec(self) -> Seq<char> {
        match self {
            StopStep::SendEos => "send eos"@,
            StopStep::AwaitEos => "await eos"@,
            StopStep::StopDebugPipeline => "stop debug pipeline"@,
            StopStep::StopEncodePipeline => "stop encode pipeline"@,
            StopStep::ReleaseBrowser => "release browser"@,
            StopStep::StopXvfb => "stop Xvfb"@,
            StopStep::StopPulse => "stop pulseaudio"@,
            StopStep::StopDbus => "stop dbus-daemon"@,
        }
    }

    /// The human-readable name of the teardown step.
    pub fn name(&self) -> (r: &'static str)
        ensures
            r@ == self.name_spec(),
    {
        match self {
            StopStep::SendEos => "send eos",
            StopStep::AwaitEos => "await eos",
            StopStep::StopDebugPipeline => "stop debug pipeline",
            StopStep::StopEncodePipeline => "stop encode pipeline",
            StopStep::ReleaseBrowser => "release browser",
            StopStep::StopXvfb => "stop Xvfb",
            StopStep::StopPulse => "stop pulseaudio",
            StopStep::StopDbus => "stop dbus-daemon",
        }
    }
}

impl EngineError {
    /// The text payload a caller receives for this failure.
    pub open spec fn describe_spec(self) -> Seq<char> {
        match self {
            EngineError::InvalidConfig => "error: invalid engine config"@,
            EngineError::LaunchFailure(k) => "error: failed to launch "@ + k.name_spec(),
            EngineError::NavigationFailure => "error: browser failed to load the target url"@,
            EngineError::NotFound(id) => "error: no engine found key="@ + dec_digits(id as nat),
            EngineError::Conflict(id) => "error: engine already running key="@ + dec_digits(
                id as nat,
            ),
            EngineError::ShutdownPartialFailure(s) => "error: couldn't stop engine at "@
                + s.name_spec(),
        }
    }

    /// The text payload a caller receives for this failure.
    pub fn describe(&self) -> (r: String)
        ensures
            r@ == self.describe_spec(),
    {
        match self {
            EngineError::InvalidConfig => "error: invalid engine config".to_owned(),
            EngineError::LaunchFailure(k) => {
                let mut s: String = "error: failed to launch ".to_owned();
                s.append(k.name());
                s
            },
            EngineError::NavigationFailure => "error: browser failed to load the target url"
                .to_owned(),
            EngineError::NotFound(id) => {
                let mut s: String = "error: no engine found key=".to_owned();
                let digits = u32_to_dec(*id);
                s.append(digits.as_str());
                s
            },
            EngineError::Conflict(id) => {
                let mut s: String = "error: engine already running key=".to_owned();
                let digits = u32_to_dec(*id);
                s.append(digits.as_str());
                s
            },
            EngineError::ShutdownPartialFailure(step) => {
                let mut s: String = "error: couldn't stop engine at ".to_owned();
                s.append(step.name());
                s
            },
        }
    }
}

} // verus!
