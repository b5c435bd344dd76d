//! The lifecycle of one recording session.
//!
//! A session owns six external resources: a message-bus broker, a virtual
//! display server, an audio server, an automation browser, an optional
//! local preview pipeline, and the encode pipeline. Launching and
//! terminating them is input/output and happens outside this crate; the
//! decisions — which resource comes next, with which derived parameters,
//! and what happens when one fails — are made here and verified.
//!
//! The lifecycle is `Starting -> Running -> Stopping -> Stopped`, and the
//! phases are encoded as types, so no transition can skip a phase and
//! stopping can begin at most once per session:
//!
//! * [`Engine::new`] begins startup and yields an [`EngineStartup`]
//!   together with the first [`LaunchRequest`]. The process runner
//!   performs the request and reports the outcome as an [`EngineEvent`]
//!   to [`EngineStartup::step`], which either issues the next request,
//!   yields the running [`Engine`], or — when a launch fails — yields an
//!   [`EngineUnwind`] that terminates every resource started so far
//!   before the failure is reported.
//! * [`Engine::stop`] consumes the running engine and yields an
//!   [`EngineShutdown`] that walks the ordered teardown sequence. Every
//!   step is attempted even if an earlier one fails; the first failure is
//!   recorded and reported at the end. The end-of-stream wait is bounded:
//!   a [`EngineEvent::DrainTimeout`] outcome is accepted there and the
//!   teardown proceeds regardless.

use vstd::prelude::*;
use crate::address::display_name;
use crate::address::display_name_spec;
use crate::address::pulse_port;
use crate::address::pulse_port_spec;
use crate::address::pulse_server;
use crate::address::pulse_server_spec;
use crate::address::recording_path;
use crate::address::recording_path_spec;
use crate::config::EngineConfig;
use crate::errors::EngineError;
use crate::errors::ResourceKind;
use crate::errors::StopStep;

verus! {

/// The lifecycle state of one resource, as the session tracks it.
#[derive(Clone, Copy, PartialEq, Eq, Structural, Debug)]
pub enum ResourceState {
    /// Never started (or skipped, for a disabled preview pipeline).
    Absent,
    /// Started and not yet torn down.
    Live,
    /// Torn down cleanly, or its handle released.
    Down,
    /// A teardown attempt failed; the resource may still be running.
    Leaked,
}

/// The states of the six resources of one session.
#[derive(Clone, Copy, PartialEq, Eq, Structural, Debug)]
pub struct Resources {
    pub dbus: ResourceState,
    pub xvfb: ResourceState,
    pub pulse: ResourceState,
    pub browser: ResourceState,
    pub debug_pipeline: ResourceState,
    pub encode_pipeline: ResourceState,
}

impl Resources {
    /// All six resources before anything was launched.
    pub open spec fn init() -> Resources {
        Resources {
            dbus: ResourceState::Absent,
            xvfb: ResourceState::Absent,
            pulse: ResourceState::Absent,
            browser: ResourceState::Absent,
            debug_pipeline: ResourceState::Absent,
            encode_pipeline: ResourceState::Absent,
        }
    }

    /// The state of resource `k`.
    pub open spec fn spec_get(self, k: ResourceKind) -> ResourceState {
        match k {
            ResourceKind::Dbus => self.dbus,
            ResourceKind::Xvfb => self.xvfb,
            ResourceKind::Pulse => self.pulse,
            ResourceKind::Browser => self.browser,
            ResourceKind::DebugPipeline => self.debug_pipeline,
            ResourceKind::EncodePipeline => self.encode_pipeline,
        }
    }

    /// `self` with resource `k` set to `st`.
    pub open spec fn spec_set(self, k: ResourceKind, st: ResourceState) -> Resources {
        match k {
            ResourceKind::Dbus => Resources { dbus: st, ..self },
            ResourceKind::Xvfb => Resources { xvfb: st, ..self },
            ResourceKind::Pulse => Resources { pulse: st, ..self },
            ResourceKind::Browser => Resources { browser: st, ..self },
            ResourceKind::DebugPipeline => Resources { debug_pipeline: st, ..self },
            ResourceKind::EncodePipeline => Resources { encode_pipeline: st, ..self },
        }
    }

    /// No resource is still live.
    pub open spec fn none_live(self) -> bool {
        &&& !(self.dbus is Live)
        &&& !(self.xvfb is Live)
        &&& !(self.pulse is Live)
        &&& !(self.browser is Live)
        &&& !(self.debug_pipeline is Live)
        &&& !(self.encode_pipeline is Live)
    }

    /// Every resource is inert: never started, or torn down cleanly.
    pub open spec fn all_clean(self) -> bool {
        &&& self.dbus is Absent || self.dbus is Down
        &&& self.xvfb is Absent || self.xvfb is Down
        &&& self.pulse is Absent || self.pulse is Down
        &&& self.browser is Absent || self.browser is Down
        &&& self.debug_pipeline is Absent || self.debug_pipeline is Down
        &&& self.encode_pipeline is Absent || self.encode_pipeline is Down
    }

    /// No resource is marked as possibly still running after a failed
    /// teardown attempt.
    pub open spec fn none_leaked(self) -> bool {
        &&& !(self.dbus is Leaked)
        &&& !(self.xvfb is Leaked)
        &&& !(self.pulse is Leaked)
        &&& !(self.browser is Leaked)
        &&& !(self.debug_pipeline is Leaked)
        &&& !(self.encode_pipeline is Leaked)
    }

    /// How many resources are still live.
    pub open spec fn live_count(self) -> int {
        (if self.dbus is Live { 1int } else { 0int }) + (if self.xvfb is Live { 1int } else { 0int })
            + (if self.pulse is Live { 1int } else { 0int }) + (if self.browser is Live { 1int } else { 0int })
            + (if self.debug_pipeline is Live { 1int } else { 0int }) + (if self.encode_pipeline is Live { 1int } else { 0int })
    }

    /// The state of resource `k`.
    pub fn get(&self, k: ResourceKind) -> (r: ResourceState)
        ensures
            r == self.spec_get(k),
    {
        match k {
            ResourceKind::Dbus => self.dbus,
            ResourceKind::Xvfb => self.xvfb,
            ResourceKind::Pulse => self.pulse,
            ResourceKind::Browser => self.browser,
            ResourceKind::DebugPipeline => self.debug_pipeline,
            ResourceKind::EncodePipeline => self.encode_pipeline,
        }
    }
}

/// The order in which the resources are launched: the display and audio
/// server need the bus address, and the browser and both pipelines need
/// the display and the audio server already live.
pub open spec fn launch_order(k: ResourceKind) -> int {
    match k {
        ResourceKind::Dbus => 0,
        ResourceKind::Xvfb => 1,
        ResourceKind::Pulse => 2,
        ResourceKind::Browser => 3,
        ResourceKind::DebugPipeline => 4,
        ResourceKind::EncodePipeline => 5,
    }
}

/// The order in which resources are torn down, both by an explicit stop
/// and by the unwind after a failed launch: pipelines first, then the
/// browser, then the processes in reverse launch order.
pub open spec fn teardown_order(k: ResourceKind) -> int {
    match k {
        ResourceKind::DebugPipeline => 0,
        ResourceKind::EncodePipeline => 1,
        ResourceKind::Browser => 2,
        ResourceKind::Xvfb => 3,
        ResourceKind::Pulse => 4,
        ResourceKind::Dbus => 5,
    }
}

/// The first resource, in teardown order, that is still live.
pub open spec fn next_to_unwind(r: Resources) -> Option<ResourceKind> {
    if r.debug_pipeline is Live {
        Some(ResourceKind::DebugPipeline)
    } else if r.encode_pipeline is Live {
        Some(ResourceKind::EncodePipeline)
    } else if r.browser is Live {
        Some(ResourceKind::Browser)
    } else if r.xvfb is Live {
        Some(ResourceKind::Xvfb)
    } else if r.pulse is Live {
        Some(ResourceKind::Pulse)
    } else if r.dbus is Live {
        Some(ResourceKind::Dbus)
    } else {
        None
    }
}

/// The first resource, in teardown order, that is still live.
fn find_next_unwind(r: &Resources) -> (o: Option<ResourceKind>)
    ensures
        o == next_to_unwind(*r),
{
    if let ResourceState::Live = r.debug_pipeline {
        Some(ResourceKind::DebugPipeline)
    } else if let ResourceState::Live = r.encode_pipeline {
        Some(ResourceKind::EncodePipeline)
    } else if let ResourceState::Live = r.browser {
        Some(ResourceKind::Browser)
    } else if let ResourceState::Live = r.xvfb {
        Some(ResourceKind::Xvfb)
    } else if let ResourceState::Live = r.pulse {
        Some(ResourceKind::Pulse)
    } else if let ResourceState::Live = r.dbus {
        Some(ResourceKind::Dbus)
    } else {
        None
    }
}

/// An outcome of a request the session's process runner performed.
pub enum EngineEvent {
    /// The message-bus broker came up and announced this address.
    BusLaunched(String),
    /// The requested resource came up.
    Launched,
    /// The requested resource failed to start.
    LaunchFailed,
    /// The browser started but never finished loading the target URL.
    NavigationFailed,
    /// The end-of-stream signal arrived within the bound.
    Eos,
    /// The bounded end-of-stream wait elapsed without the signal.
    DrainTimeout,
    /// A teardown step completed.
    StepOk,
    /// A teardown step failed.
    StepFailed,
}

/// A launch the session's process runner must perform next. The derived
/// parameters — display identifier, audio-server address and port,
/// recording path — are computed here and fixed by the contracts.
pub enum LaunchRequest {
    /// Start the session message-bus broker; its announced address comes
    /// back in [`EngineEvent::BusLaunched`].
    Dbus,
    /// Start the virtual display server on `display` at `size`, with the
    /// bus address in its environment.
    Xvfb { display: String, size: (u32, u32), dbus_addr: String },
    /// Start the audio server listening on TCP port `port`, with the bus
    /// address in its environment.
    Pulse { port: String, dbus_addr: String },
    /// Launch the automation browser on `display` with audio to
    /// `pulse_addr`, navigate it to `url` and wait for the navigation to
    /// complete.
    Browser { display: String, pulse_addr: String, url: String, dbus_addr: String },
    /// Build and start the local preview pipeline.
    DebugPipeline { display: String, pulse_addr: String },
    /// Build and start the encode pipeline writing to `file_path` and/or
    /// streaming to `rtmp_target`, and attach the end-of-stream listener
    /// to its message bus.
    EncodePipeline {
        display: String,
        pulse_addr: String,
        file_path: Option<String>,
        rtmp_target: Option<String>,
    },
}

impl LaunchRequest {
    /// The resource this request launches.
    pub open spec fn kind(self) -> ResourceKind {
        match self {
            LaunchRequest::Dbus => ResourceKind::Dbus,
            LaunchRequest::Xvfb { .. } => ResourceKind::Xvfb,
            LaunchRequest::Pulse { .. } => ResourceKind::Pulse,
            LaunchRequest::Browser { .. } => ResourceKind::Browser,
            LaunchRequest::DebugPipeline { .. } => ResourceKind::DebugPipeline,
            LaunchRequest::EncodePipeline { .. } => ResourceKind::EncodePipeline,
        }
    }
}

/// Which outcomes the runner may report for the launch of `k`.
pub open spec fn launch_event_ok(k: ResourceKind, ev: EngineEvent) -> bool {
    match k {
        ResourceKind::Dbus => ev is BusLaunched || ev is LaunchFailed,
        ResourceKind::Browser => ev is Launched || ev is LaunchFailed || ev is NavigationFailed,
        _ => ev is Launched || ev is LaunchFailed,
    }
}

/// A session whose startup sequence is in progress: one launch request is
/// outstanding, and everything before it in launch order is live.
pub struct EngineStartup {
    /// The configuration the session was requested with.
    pub cfg: EngineConfig,
    /// The states of the six resources.
    pub resources: Resources,
    /// The bus address announced by the broker, once it is up.
    pub dbus_addr: Option<String>,
    /// The resource whose launch request is outstanding.
    pub awaiting: ResourceKind,
}

/// What a startup step yields.
pub enum StartStep {
    /// The next launch to perform.
    Launch(EngineStartup, LaunchRequest),
    /// A launch failed; terminate the named resource (the first live one
    /// in teardown order), then continue stepping the unwind.
    Unwind(EngineUnwind, ResourceKind),
    /// Every resource is up: the session is running.
    Ready(Engine),
    /// The startup failed and nothing is left to clean up.
    Failed(StartFailure),
}

/// A failed startup after its unwind finished: the error to report, and
/// the final resource states (none live).
pub struct StartFailure {
    pub error: EngineError,
    pub resources: Resources,
}

impl EngineStartup {
    /// Whether resource `k` is launched before the one currently awaited
    /// (the disabled preview pipeline is never launched).
    pub open spec fn started_before(self, k: ResourceKind) -> bool {
        &&& launch_order(k) < launch_order(self.awaiting)
        &&& (k != ResourceKind::DebugPipeline || self.cfg.gst_debug)
    }

    /// The startup invariant: the configuration is valid, the broker
    /// address is known exactly once the broker is up, and exactly the
    /// resources before the awaited one are live.
    pub open spec fn wf(self) -> bool {
        &&& self.cfg.valid()
        &&& (self.awaiting is DebugPipeline ==> self.cfg.gst_debug)
        &&& (self.dbus_addr is Some <==> !(self.awaiting is Dbus))
        &&& self.resources.dbus == (if self.started_before(ResourceKind::Dbus) {
            ResourceState::Live
        } else {
            ResourceState::Absent
        })
        &&& self.resources.xvfb == (if self.started_before(ResourceKind::Xvfb) {
            ResourceState::Live
        } else {
            ResourceState::Absent
        })
        &&& self.resources.pulse == (if self.started_before(ResourceKind::Pulse) {
            ResourceState::Live
        } else {
            ResourceState::Absent
        })
        &&& self.resources.browser == (if self.started_before(ResourceKind::Browser) {
            ResourceState::Live
        } else {
            ResourceState::Absent
        })
        &&& self.resources.debug_pipeline == (if self.started_before(ResourceKind::DebugPipeline) {
            ResourceState::Live
        } else {
            ResourceState::Absent
        })
        &&& self.resources.encode_pipeline == (if self.started_before(
            ResourceKind::EncodePipeline,
        ) {
            ResourceState::Live
        } else {
            ResourceState::Absent
        })
    }

    /// The announced bus address (meaningful once the broker is up).
    pub open spec fn addr(self) -> Seq<char> {
        self.dbus_addr->0@
    }

    /// The resource launched after the awaited one succeeds, if any.
    pub open spec fn next_kind(self) -> Option<ResourceKind> {
        match self.awaiting {
            ResourceKind::Dbus => Some(ResourceKind::Xvfb),
            ResourceKind::Xvfb => Some(ResourceKind::Pulse),
            ResourceKind::Pulse => Some(ResourceKind::Browser),
            ResourceKind::Browser => if self.cfg.gst_debug {
                Some(ResourceKind::DebugPipeline)
            } else {
                Some(ResourceKind::EncodePipeline)
            },
            ResourceKind::DebugPipeline => Some(ResourceKind::EncodePipeline),
            ResourceKind::EncodePipeline => None,
        }
    }

    /// Whether `req` is exactly the request this machine must issue: it
    /// launches the awaited resource with the parameters derived from the
    /// session id, the configuration, and the announced bus address.
    pub open spec fn request_ok(self, req: LaunchRequest) -> bool {
        match req {
            LaunchRequest::Dbus => self.awaiting is Dbus,
            LaunchRequest::Xvfb { display, size, dbus_addr } => {
                &&& self.awaiting is Xvfb
                &&& display@ == display_name_spec(self.cfg.id as nat)
                &&& size == self.cfg.size
                &&& dbus_addr@ == self.addr()
            },
            LaunchRequest::Pulse { port, dbus_addr } => {
                &&& self.awaiting is Pulse
                &&& port@ == pulse_port_spec(self.cfg.id as nat)
                &&& dbus_addr@ == self.addr()
            },
            LaunchRequest::Browser { display, pulse_addr, url, dbus_addr } => {
                &&& self.awaiting is Browser
                &&& display@ == display_name_spec(self.cfg.id as nat)
                &&& pulse_addr@ == pulse_server_spec(self.cfg.id as nat)
                &&& url@ == self.cfg.url@
                &&& dbus_addr@ == self.addr()
            },
            LaunchRequest::DebugPipeline { display, pulse_addr } => {
                &&& self.awaiting is DebugPipeline
                &&& display@ == display_name_spec(self.cfg.id as nat)
                &&& pulse_addr@ == pulse_server_spec(self.cfg.id as nat)
            },
            LaunchRequest::EncodePipeline { display, pulse_addr, file_path, rtmp_target } => {
                &&& self.awaiting is EncodePipeline
                &&& display@ == display_name_spec(self.cfg.id as nat)
                &&& pulse_addr@ == pulse_server_spec(self.cfg.id as nat)
                &&& (file_path is Some <==> self.cfg.encode_dir is Some)
                &&& (file_path matches Some(p) ==> self.cfg.encode_dir matches Some(d) && p@
                    == recording_path_spec(d@, self.cfg.id as nat))
                &&& (rtmp_target is Some <==> self.cfg.encode_rtmp is Some)
                &&& (rtmp_target matches Some(t) ==> self.cfg.encode_rtmp matches Some(u) && t@
                    == u@)
            },
        }
    }

    /// Performs one startup transition: consumes the outcome of the
    /// outstanding launch and yields the next request, the unwind of a
    /// failed startup, or the running engine.
    ///
    /// On success the next resource in launch order is requested with its
    /// exact derived parameters; after the last one the running
    /// [`Engine`] is returned. On a launch failure every resource started
    /// so far is handed to an [`EngineUnwind`] (first live one in
    /// teardown order first); if nothing was started yet, the startup
    /// fails immediately with nothing live.
    pub fn step(self, ev: EngineEvent) -> (r: StartStep)
        requires
            self.wf(),
            launch_event_ok(self.awaiting, ev),
        ensures
            (ev is LaunchFailed || ev is NavigationFailed) ==> ({
                let error = if ev is NavigationFailed {
                    EngineError::NavigationFailure
                } else {
                    EngineError::LaunchFailure(self.awaiting)
                };
                match next_to_unwind(self.resources) {
                    Some(k) => r matches StartStep::Unwind(u, kk) && u.wf() && u.error == error
                        && u.resources == self.resources && u.terminating == k && kk == k,
                    None => r matches StartStep::Failed(f) && f.error == error && f.resources
                        == self.resources && f.resources.none_live(),
                }
            }),
            (ev is BusLaunched || ev is Launched) ==> ({
                let res2 = self.resources.spec_set(self.awaiting, ResourceState::Live);
                match self.next_kind() {
                    Some(k2) => {
                        &&& r matches StartStep::Launch(s2, req)
                        &&& s2.wf()
                        &&& s2.cfg == self.cfg
                        &&& s2.awaiting == k2
                        &&& s2.resources == res2
                        &&& (ev matches EngineEvent::BusLaunched(a) ==> s2.dbus_addr == Some(a))
                        &&& (ev is Launched ==> s2.dbus_addr == self.dbus_addr)
                        &&& s2.request_ok(req)
                        &&& launch_order(s2.awaiting) > launch_order(self.awaiting)
                    },
                    None => r matches StartStep::Ready(e) && e.wf() && e@ == (EngineView {
                        id: self.cfg.id,
                        phase: Phase::Running,
                        resources: res2,
                        has_debug: self.cfg.gst_debug,
                        eos_timeout_ms: self.cfg.eos_timeout_ms,
                    }),
                }
            }),
    {
        let EngineStartup { cfg, resources, dbus_addr, awaiting } = self;
        match ev {
            EngineEvent::LaunchFailed | EngineEvent::NavigationFailed => {
                let error = match ev {
                    EngineEvent::NavigationFailed => EngineError::NavigationFailure,
                    _ => EngineError::LaunchFailure(awaiting),
                };
                match find_next_unwind(&resources) {
                    Some(k) => StartStep::Unwind(EngineUnwind { error, resources, terminating: k }, k),
                    None => StartStep::Failed(StartFailure { error, resources }),
                }
            },
            _ => {
                let addr2: Option<String> = match ev {
                    EngineEvent::BusLaunched(a) => Some(a),
                    _ => dbus_addr,
                };
                let mut res2 = resources;
                match awaiting {
                    ResourceKind::Dbus => res2.dbus = ResourceState::Live,
                    ResourceKind::Xvfb => res2.xvfb = ResourceState::Live,
                    ResourceKind::Pulse => res2.pulse = ResourceState::Live,
                    ResourceKind::Browser => res2.browser = ResourceState::Live,
                    ResourceKind::DebugPipeline => res2.debug_pipeline = ResourceState::Live,
                    ResourceKind::EncodePipeline => res2.encode_pipeline = ResourceState::Live,
                }
                match awaiting {
                    ResourceKind::EncodePipeline => StartStep::Ready(
                        Engine {
                            id: cfg.id,
                            phase: Phase::Running,
                            resources: res2,
                            has_debug: cfg.gst_debug,
                            eos_timeout_ms: cfg.eos_timeout_ms,
                        },
                    ),
                    _ => {
                        let k2 = match awaiting {
                            ResourceKind::Dbus => ResourceKind::Xvfb,
                            ResourceKind::Xvfb => ResourceKind::Pulse,
                            ResourceKind::Pulse => ResourceKind::Browser,
                            ResourceKind::Browser => if cfg.gst_debug {
                                ResourceKind::DebugPipeline
                            } else {
                                ResourceKind::EncodePipeline
                            },
                            _ => ResourceKind::EncodePipeline,
                        };
                        let req = match k2 {
                            ResourceKind::Xvfb => LaunchRequest::Xvfb {
                                display: display_name(cfg.id),
                                size: cfg.size,
                                dbus_addr: clone_addr(&addr2),
                            },
                            ResourceKind::Pulse => LaunchRequest::Pulse {
                                port: pulse_port(cfg.id),
                                dbus_addr: clone_addr(&addr2),
                            },
                            ResourceKind::Browser => LaunchRequest::Browser {
                                display: display_name(cfg.id),
                                pulse_addr: pulse_server(cfg.id),
                                url: cfg.url.clone(),
                                dbus_addr: clone_addr(&addr2),
                            },
                            ResourceKind::DebugPipeline => LaunchRequest::DebugPipeline {
                                display: display_name(cfg.id),
                                pulse_addr: pulse_server(cfg.id),
                            },
                            _ => LaunchRequest::EncodePipeline {
                                display: display_name(cfg.id),
                                pulse_addr: pulse_server(cfg.id),
                                file_path: match &cfg.encode_dir {
                                    Some(d) => Some(recording_path(d.as_str(), cfg.id)),
                                    None => None,
                                },
                                rtmp_target: match &cfg.encode_rtmp {
                                    Some(t) => Some(t.clone()),
                                    None => None,
                                },
                            },
                        };
                        StartStep::Launch(
                            EngineStartup { cfg, resources: res2, dbus_addr: addr2, awaiting: k2 },
                            req,
                        )
                    },
                }
            },
        }
    }
}

/// Clones the announced bus address out of its slot.
fn clone_addr(o: &Option<String>) -> (r: String)
    requires
        o is Some,
    ensures
        r@ == o->0@,
{
    match o {
        Some(a) => a.clone(),
        None => {
            proof {
                assert(false);
            }
            String::new()
        },
    }
}

/// The unwind of a failed startup: every resource started before the
/// failure is terminated, first live one in teardown order first, and the
/// original error is preserved. Termination is best-effort — a failed
/// attempt marks the resource [`ResourceState::Leaked`] and the unwind
/// moves on, because the launch error is what the caller must see.
pub struct EngineUnwind {
    /// The launch error that will be reported once the unwind finishes.
    pub error: EngineError,
    /// The states of the six resources.
    pub resources: Resources,
    /// The resource whose termination is outstanding.
    pub terminating: ResourceKind,
}

/// What an unwind step yields.
pub enum UnwindStep {
    /// Terminate the named resource next.
    Unwind(EngineUnwind, ResourceKind),
    /// Nothing is live any more; report the recorded launch error.
    Failed(StartFailure),
}

impl EngineUnwind {
    /// The unwind invariant: the recorded error is a launch error, and
    /// the outstanding resource is the first live one in teardown order.
    pub open spec fn wf(self) -> bool {
        &&& self.error is LaunchFailure || self.error is NavigationFailure
        &&& next_to_unwind(self.resources) == Some(self.terminating)
    }

    /// Performs one unwind transition: consumes the outcome of the
    /// outstanding termination (accepted either way — the unwind swallows
    /// teardown errors) and yields the next termination, or the final
    /// failure once nothing is live.
    pub fn step(self, ev: EngineEvent) -> (r: UnwindStep)
        requires
            self.wf(),
            ev is StepOk || ev is StepFailed,
        ensures
            ({
                let st = if ev is StepOk {
                    ResourceState::Down
                } else {
                    ResourceState::Leaked
                };
                let res2 = self.resources.spec_set(self.terminating, st);
                match next_to_unwind(res2) {
                    Some(k) => r matches UnwindStep::Unwind(u, kk) && u.wf() && u.error
                        == self.error && u.resources == res2 && u.terminating == k && kk == k
                        && res2.live_count() < self.resources.live_count(),
                    None => r matches UnwindStep::Failed(f) && f.error == self.error
                        && f.resources == res2 && f.resources.none_live(),
                }
            }),
    {
        let st = match ev {
            EngineEvent::StepOk => ResourceState::Down,
            _ => ResourceState::Leaked,
        };
        let mut res2 = self.resources;
        match self.terminating {
            ResourceKind::Dbus => res2.dbus = st,
            ResourceKind::Xvfb => res2.xvfb = st,
            ResourceKind::Pulse => res2.pulse = st,
            ResourceKind::Browser => res2.browser = st,
            ResourceKind::DebugPipeline => res2.debug_pipeline = st,
            ResourceKind::EncodePipeline => res2.encode_pipeline = st,
        }
        match find_next_unwind(&res2) {
            Some(k) => UnwindStep::Unwind(
                EngineUnwind { error: self.error, resources: res2, terminating: k },
                k,
            ),
            None => UnwindStep::Failed(StartFailure { error: self.error, resources: res2 }),
        }
    }
}

/// The phase of a constructed session: the in-between phases live in
/// their own types ([`EngineStartup`], [`EngineShutdown`]).
#[derive(Clone, Copy, PartialEq, Eq, Structural, Debug)]
pub enum Phase {
    Running,
    Stopped,
}

/// The abstract state of an [`Engine`].
pub struct EngineView {
    pub id: u32,
    pub phase: Phase,
    pub resources: Resources,
    pub has_debug: bool,
    pub eos_timeout_ms: u32,
}

/// One recording session. A running engine exists only as the result of
/// a completed startup sequence, owns all six resources exclusively, and
/// is consumed by [`Engine::stop`] — so teardown can begin at most once.
pub struct Engine {
    id: u32,
    phase: Phase,
    resources: Resources,
    has_debug: bool,
    eos_timeout_ms: u32,
}

impl View for Engine {
    type V = EngineView;

    closed spec fn view(&self) -> EngineView {
        EngineView {
            id: self.id,
            phase: self.phase,
            resources: self.resources,
            has_debug: self.has_debug,
            eos_timeout_ms: self.eos_timeout_ms,
        }
    }
}

impl Engine {
    /// The engine invariant: a running engine holds every resource live
    /// (the preview pipeline only when enabled); a stopped one holds
    /// none.
    pub open spec fn wf(self) -> bool {
        &&& self@.id < 10000
        &&& self@.eos_timeout_ms > 0
        &&& match self@.phase {
            Phase::Running => {
                &&& self@.resources.dbus is Live
                &&& self@.resources.xvfb is Live
                &&& self@.resources.pulse is Live
                &&& self@.resources.browser is Live
                &&& self@.resources.debug_pipeline == (if self@.has_debug {
                    ResourceState::Live
                } else {
                    ResourceState::Absent
                })
                &&& self@.resources.encode_pipeline is Live
            },
            Phase::Stopped => self@.resources.none_live(),
        }
    }

    /// The session id.
    pub fn id(&self) -> (r: u32)
        ensures
            r == self@.id,
    {
        self.id
    }

    /// Whether the session is in the `Running` phase.
    pub fn is_running(&self) -> (r: bool)
        ensures
            r == (self@.phase is Running),
    {
        match self.phase {
            Phase::Running => true,
            Phase::Stopped => false,
        }
    }

    /// The tracked state of resource `k`.
    pub fn resource_state(&self, k: ResourceKind) -> (r: ResourceState)
        ensures
            r == self@.resources.spec_get(k),
    {
        self.resources.get(k)
    }

    /// Whether a preview pipeline belongs to this session.
    pub fn has_debug(&self) -> (r: bool)
        ensures
            r == self@.has_debug,
    {
        self.has_debug
    }

    /// Begins the startup sequence for `cfg`: yields the startup machine
    /// and the first launch request (the message-bus broker), or rejects
    /// an invalid configuration before anything is launched.
    pub fn new(cfg: EngineConfig) -> (r: Result<(EngineStartup, LaunchRequest), EngineError>)
        ensures
            cfg.valid() ==> (r matches Ok((s, req)) && s.wf() && s.cfg == cfg && s.awaiting is Dbus
                && s.resources == Resources::init() && s.dbus_addr is None && req is Dbus),
            !cfg.valid() ==> (r matches Err(e) && e == EngineError::InvalidConfig),
    {
        if !cfg.validate() {
            return Err(EngineError::InvalidConfig);
        }
        let s = EngineStartup {
            cfg,
            resources: Resources {
                dbus: ResourceState::Absent,
                xvfb: ResourceState::Absent,
                pulse: ResourceState::Absent,
                browser: ResourceState::Absent,
                debug_pipeline: ResourceState::Absent,
                encode_pipeline: ResourceState::Absent,
            },
            dbus_addr: None,
            awaiting: ResourceKind::Dbus,
        };
        Ok((s, LaunchRequest::Dbus))
    }

    /// Begins the ordered teardown sequence, consuming the running
    /// engine: yields the shutdown machine and its first request (send
    /// the end-of-stream event into the encode pipeline).
    pub fn stop(self) -> (r: (EngineShutdown, StopRequest))
        requires
            self.wf(),
            self@.phase is Running,
        ensures
            r.0.wf(),
            r.0.id == self@.id,
            r.0.resources == self@.resources,
            r.0.has_debug == self@.has_debug,
            r.0.eos_timeout_ms == self@.eos_timeout_ms,
            r.0.pending is SendEos,
            r.0.first_failure is None,
            r.1 == StopRequest::SendEos,
    {
        let sd = EngineShutdown {
            id: self.id,
            resources: self.resources,
            has_debug: self.has_debug,
            eos_timeout_ms: self.eos_timeout_ms,
            pending: StopStep::SendEos,
            first_failure: None,
        };
        (sd, StopRequest::SendEos)
    }
}

/// A teardown action the session's process runner must perform next.
#[derive(Clone, Copy, PartialEq, Eq, Structural, Debug)]
pub enum StopRequest {
    /// Send an end-of-stream request into the encode pipeline.
    SendEos,
    /// Wait for the end-of-stream signal, at most `timeout_ms`
    /// milliseconds; intervening pipeline errors are not grounds to
    /// abandon the wait.
    AwaitEos { timeout_ms: u32 },
    /// Transition the preview pipeline to an inert state.
    StopDebugPipeline,
    /// Transition the encode pipeline to an inert state.
    StopEncodePipeline,
    /// Release the browser handle, closing the browser process.
    ReleaseBrowser,
    /// Terminate the virtual display server and wait for its exit.
    StopXvfb,
    /// Terminate the audio server and wait for its exit.
    StopPulse,
    /// Terminate the message-bus broker and wait for its exit.
    StopDbus,
}

/// Where `s` falls in the teardown sequence.
pub open spec fn stop_order(s: StopStep) -> int {
    match s {
        StopStep::SendEos => 0,
        StopStep::AwaitEos => 1,
        StopStep::StopDebugPipeline => 2,
        StopStep::StopEncodePipeline => 3,
        StopStep::ReleaseBrowser => 4,
        StopStep::StopXvfb => 5,
        StopStep::StopPulse => 6,
        StopStep::StopDbus => 7,
    }
}

/// The resource a teardown step releases, if any.
pub open spec fn step_resource(s: StopStep) -> Option<ResourceKind> {
    match s {
        StopStep::SendEos => None,
        StopStep::AwaitEos => None,
        StopStep::StopDebugPipeline => Some(ResourceKind::DebugPipeline),
        StopStep::StopEncodePipeline => Some(ResourceKind::EncodePipeline),
        StopStep::ReleaseBrowser => Some(ResourceKind::Browser),
        StopStep::StopXvfb => Some(ResourceKind::Xvfb),
        StopStep::StopPulse => Some(ResourceKind::Pulse),
        StopStep::StopDbus => Some(ResourceKind::Dbus),
    }
}

/// The teardown step that releases resource `k`.
pub open spec fn step_of(k: ResourceKind) -> StopStep {
    match k {
        ResourceKind::DebugPipeline => StopStep::StopDebugPipeline,
        ResourceKind::EncodePipeline => StopStep::StopEncodePipeline,
        ResourceKind::Browser => StopStep::ReleaseBrowser,
        ResourceKind::Xvfb => StopStep::StopXvfb,
        ResourceKind::Pulse => StopStep::StopPulse,
        ResourceKind::Dbus => StopStep::StopDbus,
    }
}

/// The teardown step after `s` (the preview step is skipped when the
/// session has no preview pipeline).
pub open spec fn next_stop(s: StopStep, has_debug: bool) -> Option<StopStep> {
    match s {
        StopStep::SendEos => Some(StopStep::AwaitEos),
        StopStep::AwaitEos => if has_debug {
            Some(StopStep::StopDebugPipeline)
        } else {
            Some(StopStep::StopEncodePipeline)
        },
        StopStep::StopDebugPipeline => Some(StopStep::StopEncodePipeline),
        StopStep::StopEncodePipeline => Some(StopStep::ReleaseBrowser),
        StopStep::ReleaseBrowser => Some(StopStep::StopXvfb),
        StopStep::StopXvfb => Some(StopStep::StopPulse),
        StopStep::StopPulse => Some(StopStep::StopDbus),
        StopStep::StopDbus => None,
    }
}

/// The request that performs teardown step `s`.
pub open spec fn stop_request_spec(s: StopStep, timeout_ms: u32) -> StopRequest {
    match s {
        StopStep::SendEos => StopRequest::SendEos,
        StopStep::AwaitEos => StopRequest::AwaitEos { timeout_ms },
        StopStep::StopDebugPipeline => StopRequest::StopDebugPipeline,
        StopStep::StopEncodePipeline => StopRequest::StopEncodePipeline,
        StopStep::ReleaseBrowser => StopRequest::ReleaseBrowser,
        StopStep::StopXvfb => StopRequest::StopXvfb,
        StopStep::StopPulse => StopRequest::StopPulse,
        StopStep::StopDbus => StopRequest::StopDbus,
    }
}

/// Which outcomes the runner may report for teardown step `s`: the
/// bounded end-of-stream wait ends with the signal or with the timeout,
/// every other step completes or fails.
pub open spec fn stop_event_ok(s: StopStep, ev: EngineEvent) -> bool {
    if s is AwaitEos {
        ev is Eos || ev is DrainTimeout
    } else {
        ev is StepOk || ev is StepFailed
    }
}

/// A session whose teardown sequence is in progress. Every step is
/// attempted even if an earlier one failed — resources are never leaked
/// merely because an earlier step failed — and the first failure is
/// recorded and reported at the end.
pub struct EngineShutdown {
    /// The session id.
    pub id: u32,
    /// The states of the six resources.
    pub resources: Resources,
    /// Whether a preview pipeline belongs to this session.
    pub has_debug: bool,
    /// The bound on the end-of-stream wait, in milliseconds.
    pub eos_timeout_ms: u32,
    /// The teardown step whose request is outstanding.
    pub pending: StopStep,
    /// The first step that failed, if any has.
    pub first_failure: Option<StopStep>,
}

/// What a shutdown step yields.
pub enum ShutdownStep {
    /// The next teardown action to perform.
    Next(EngineShutdown, StopRequest),
    /// The sequence finished: the stopped engine, and `Ok` exactly when
    /// no step failed, otherwise the first failing step.
    Done(Engine, Result<(), EngineError>),
}

impl EngineShutdown {
    /// Whether the resource `k` has already been handled by a step
    /// before the pending one.
    pub open spec fn handled(self, k: ResourceKind) -> bool {
        stop_order(step_of(k)) < stop_order(self.pending)
    }

    /// The expected state of resource `k`: absent for a disabled preview
    /// pipeline, no longer live once its step has run, live until then.
    pub open spec fn res_ok(self, k: ResourceKind) -> bool {
        if k is DebugPipeline && !self.has_debug {
            self.resources.spec_get(k) is Absent
        } else if self.handled(k) {
            !(self.resources.spec_get(k) is Live)
        } else {
            self.resources.spec_get(k) is Live
        }
    }

    /// The shutdown invariant.
    pub open spec fn wf(self) -> bool {
        &&& self.id < 10000
        &&& self.eos_timeout_ms > 0
        &&& (self.pending is StopDebugPipeline ==> self.has_debug)
        &&& self.res_ok(ResourceKind::Dbus)
        &&& self.res_ok(ResourceKind::Xvfb)
        &&& self.res_ok(ResourceKind::Pulse)
        &&& self.res_ok(ResourceKind::Browser)
        &&& self.res_ok(ResourceKind::DebugPipeline)
        &&& self.res_ok(ResourceKind::EncodePipeline)
        &&& (self.first_failure matches Some(s) ==> stop_order(s) < stop_order(self.pending))
        &&& (self.first_failure is None ==> self.resources.none_leaked())
    }

    /// How many steps are left, the pending one included.
    pub open spec fn remaining(self) -> int {
        8 - stop_order(self.pending)
    }

    /// Performs one teardown transition: consumes the outcome of the
    /// outstanding step and yields the next action, or the stopped engine
    /// and the aggregate result once the sequence is complete.
    ///
    /// A failed step (or the end-of-stream wait timing out) is recorded —
    /// the first such step is what the result reports — but the sequence
    /// always proceeds to the next step; `remaining` strictly decreases,
    /// so the teardown completes after at most eight outcomes. The result
    /// is `Ok` exactly when every step succeeded, and then every resource
    /// is inert.
    pub fn step(self, ev: EngineEvent) -> (r: ShutdownStep)
        requires
            self.wf(),
            stop_event_ok(self.pending, ev),
        ensures
            ({
                let failed = ev is StepFailed || ev is DrainTimeout;
                let ff2 = if self.first_failure is None && failed {
                    Some(self.pending)
                } else {
                    self.first_failure
                };
                let res2 = match step_resource(self.pending) {
                    Some(k) => self.resources.spec_set(
                        k,
                        if failed {
                            ResourceState::Leaked
                        } else {
                            ResourceState::Down
                        },
                    ),
                    None => self.resources,
                };
                match next_stop(self.pending, self.has_debug) {
                    Some(p2) => r matches ShutdownStep::Next(m2, req) && m2.wf() && m2.id == self.id
                        && m2.resources == res2 && m2.has_debug == self.has_debug
                        && m2.eos_timeout_ms == self.eos_timeout_ms && m2.pending == p2
                        && m2.first_failure == ff2 && req == stop_request_spec(
                        p2,
                        self.eos_timeout_ms,
                    ) && m2.remaining() < self.remaining(),
                    None => r matches ShutdownStep::Done(e, res) && e.wf() && e@.phase is Stopped
                        && e@.id == self.id && e@.resources == res2 && e@.has_debug
                        == self.has_debug && e@.eos_timeout_ms == self.eos_timeout_ms && (match ff2 {
                        None => res is Ok && res2.all_clean(),
                        Some(s) => res matches Err(er) && er == EngineError::ShutdownPartialFailure(
                            s,
                        ),
                    }),
                }
            }),
    {
        let failed = match ev {
            EngineEvent::StepFailed | EngineEvent::DrainTimeout => true,
            _ => false,
        };
        let ff2: Option<StopStep> = match self.first_failure {
            None => if failed {
                Some(self.pending)
            } else {
                None
            },
            Some(s) => Some(s),
        };
        let mut res2 = self.resources;
        let st = if failed {
            ResourceState::Leaked
        } else {
            ResourceState::Down
        };
        match self.pending {
            StopStep::StopDebugPipeline => res2.debug_pipeline = st,
            StopStep::StopEncodePipeline => res2.encode_pipeline = st,
            StopStep::ReleaseBrowser => res2.browser = st,
            StopStep::StopXvfb => res2.xvfb = st,
            StopStep::StopPulse => res2.pulse = st,
            StopStep::StopDbus => res2.dbus = st,
            _ => {},
        }
        let p2: Option<StopStep> = match self.pending {
            StopStep::SendEos => Some(StopStep::AwaitEos),
            StopStep::AwaitEos => if self.has_debug {
                Some(StopStep::StopDebugPipeline)
            } else {
                Some(StopStep::StopEncodePipeline)
            },
            StopStep::StopDebugPipeline => Some(StopStep::StopEncodePipeline),
            StopStep::StopEncodePipeline => Some(StopStep::ReleaseBrowser),
            StopStep::ReleaseBrowser => Some(StopStep::StopXvfb),
            StopStep::StopXvfb => Some(StopStep::StopPulse),
            StopStep::StopPulse => Some(StopStep::StopDbus),
            StopStep::StopDbus => None,
        };
        match p2 {
            Some(p) => {
                let req = match p {
                    StopStep::SendEos => StopRequest::SendEos,
                    StopStep::AwaitEos => StopRequest::AwaitEos {
                        timeout_ms: self.eos_timeout_ms,
                    },
                    StopStep::StopDebugPipeline => StopRequest::StopDebugPipeline,
                    StopStep::StopEncodePipeline => StopRequest::StopEncodePipeline,
                    StopStep::ReleaseBrowser => StopRequest::ReleaseBrowser,
                    StopStep::StopXvfb => StopRequest::StopXvfb,
                    StopStep::StopPulse => StopRequest::StopPulse,
                    StopStep::StopDbus => StopRequest::StopDbus,
                };
                ShutdownStep::Next(
                    EngineShutdown {
                        id: self.id,
                        resources: res2,
                        has_debug: self.has_debug,
                        eos_timeout_ms: self.eos_timeout_ms,
                        pending: p,
                        first_failure: ff2,
                    },
                    req,
                )
            },
            None => {
                let res: Result<(), EngineError> = match ff2 {
                    None => Ok(()),
                    Some(s) => Err(EngineError::ShutdownPartialFailure(s)),
                };
                ShutdownStep::Done(
                    Engine {
                        id: self.id,
                        phase: Phase::Stopped,
                        resources: res2,
                        has_debug: self.has_debug,
                        eos_timeout_ms: self.eos_timeout_ms,
                    },
                    res,
                )
            },
        }
    }
}

/// Extracts the broker's announced bus address from its captured
/// standard output: the first line, i.e. everything up to the first line
/// feed (or all of it, if there is none). The launch fails if no address
/// line was produced, that is, if the first line is empty.
pub fn extract_bus_address(out: &Vec<u8>) -> (r: Result<Vec<u8>, EngineError>)
    ensures
        r matches Ok(v) ==> ({
            &&& 0 < v@.len() <= out@.len()
            &&& v@ == out@.take(v@.len() as int)
            &&& (forall|j: int| 0 <= j < v@.len() ==> out@[j] != 10)
            &&& (v@.len() < out@.len() ==> out@[v@.len() as int] == 10)
        }),
        r matches Err(e) ==> e == EngineError::LaunchFailure(ResourceKind::Dbus),
        (r is Ok <==> out@.len() > 0 && out@[0] != 10),
{
    let mut end: usize = 0;
    while end < out.len() && out[end] != 10
        invariant
            end <= out@.len(),
            forall|j: int| 0 <= j < end ==> out@[j] != 10,
        decreases out@.len() - end,
    {
        end = end + 1;
    }
    if end == 0 {
        return Err(EngineError::LaunchFailure(ResourceKind::Dbus));
    }
    let mut v: Vec<u8> = Vec::new();
    let mut k: usize = 0;
    while k < end
        invariant
            k <= end,
            end <= out@.len(),
            v@ == out@.take(k as int),
        decreases end - k,
    {
        v.push(out[k]);
        k = k + 1;
        proof {
            assert(out@.take(k as int) =~= out@.take(k - 1int).push(out@[k - 1]));
        }
    }
    Ok(v)
}

/// A message seen by the listener attached to the encode pipeline's bus.
#[derive(Clone, Copy, PartialEq, Eq, Structural, Debug)]
pub enum BusMessage {
    /// The pipeline finished flushing all buffered media.
    Eos,
    /// The pipeline reported an error.
    PipelineError,
    /// Anything else.
    Other,
}

/// What the bus listener does with a message.
#[derive(Clone, Copy, PartialEq, Eq, Structural, Debug)]
pub enum ListenerStep {
    /// Fire the one-shot end-of-stream notification and terminate.
    SignalEosAndStop,
    /// Keep listening (pipeline errors are logged, never fatal to the
    /// listener).
    KeepListening,
}

/// The bus listener's decision for one message: only end-of-stream fires
/// the notification and terminates the listener; errors and everything
/// else keep it listening.
pub fn on_bus_message(msg: &BusMessage) -> (r: ListenerStep)
    ensures
        r is SignalEosAndStop <==> msg is Eos,
{
    match msg {
        BusMessage::Eos => ListenerStep::SignalEosAndStop,
        _ => ListenerStep::KeepListening,
    }
}

} // verus!
