use tapedeck::config::EngineConfig;
use tapedeck::engine::Engine;
use tapedeck::engine::EngineEvent;
use tapedeck::engine::EngineShutdown;
use tapedeck::engine::ResourceState;
use tapedeck::engine::ShutdownStep;
use tapedeck::engine::StartStep;
use tapedeck::engine::StopRequest;
use tapedeck::errors::EngineError;
use tapedeck::errors::ResourceKind;
use tapedeck::errors::StopStep;
use tapedeck::manager::EventStep;
use tapedeck::manager::Manager;
use tapedeck::manager::ManagerEvent;

fn file_config(id: u32, url: &str) -> EngineConfig {
    EngineConfig {
        id,
        size: (1920, 1080),
        url: url.to_string(),
        encode_dir: Some("/tmp".to_string()),
        encode_rtmp: None,
        gst_debug: false,
        eos_timeout_ms: 5000,
    }
}

fn spawn(mgr: &mut Manager, cfg: EngineConfig) -> Result<(), EngineError> {
    let (s, _req) = match mgr.on_event(ManagerEvent::EngineSpawn(cfg)) {
        EventStep::Spawning(s, req) => (s, req),
        EventStep::Rejected(e) => return Err(e),
        EventStep::Stopping(..) => panic!("a spawn request never begins a teardown"),
    };
    let mut step = s.step(EngineEvent::BusLaunched("unix:abstract=bus".to_string()));
    loop {
        match step {
            StartStep::Launch(s2, _req) => {
                step = s2.step(EngineEvent::Launched);
            }
            StartStep::Ready(e) => {
                return match mgr.install(e) {
                    Ok(()) => Ok(()),
                    Err((_eng, er)) => Err(er),
                };
            }
            StartStep::Unwind(..) | StartStep::Failed(..) => {
                panic!("every launch succeeded in this scenario")
            }
        }
    }
}

fn stop(mgr: &mut Manager, id: u32) -> Result<(), EngineError> {
    let (sd, _req) = match mgr.on_event(ManagerEvent::EngineStop(id)) {
        EventStep::Stopping(sd, req) => (sd, req),
        EventStep::Rejected(e) => return Err(e),
        EventStep::Spawning(..) => panic!("a stop request never begins a startup"),
    };
    let mut m: EngineShutdown = sd;
    let mut r = StopRequest::SendEos;
    loop {
        let ev = match r {
            StopRequest::AwaitEos { .. } => EngineEvent::Eos,
            _ => EngineEvent::StepOk,
        };
        match m.step(ev) {
            ShutdownStep::Next(m2, r2) => {
                m = m2;
                r = r2;
            }
            ShutdownStep::Done(_e, res) => return res,
        }
    }
}

#[test]
fn scenario_spawn_then_stop_succeeds_and_names_the_recording() {
    let mut mgr = Manager::new();
    assert_eq!(mgr.len(), 0);
    // The recording of session 1 under /tmp is /tmp/recording-1.mp4;
    // the startup contract fixes the encode pipeline's file path to
    // exactly that (checked at the engine level in the lifecycle tests).
    assert_eq!(spawn(&mut mgr, file_config(1, "https://example.test")), Ok(()));
    assert!(mgr.contains(1));
    assert_eq!(mgr.len(), 1);
    assert_eq!(stop(&mut mgr, 1), Ok(()));
    assert!(!mgr.contains(1));
    assert_eq!(mgr.len(), 0);
}

#[test]
fn scenario_duplicate_spawn_conflicts_and_leaves_the_first_running() {
    let mut mgr = Manager::new();
    assert_eq!(spawn(&mut mgr, file_config(2, "https://example.test")), Ok(()));
    // The second spawn is rejected before anything is launched.
    match mgr.on_event(ManagerEvent::EngineSpawn(file_config(2, "https://example.test"))) {
        EventStep::Rejected(e) => assert_eq!(e, EngineError::Conflict(2)),
        _ => panic!("a live id must be rejected as a conflict"),
    }
    assert!(mgr.contains(2));
    assert!(mgr.is_running(2));
    assert_eq!(mgr.len(), 1);
    // The first session still stops exactly once.
    assert_eq!(stop(&mut mgr, 2), Ok(()));
    assert_eq!(stop(&mut mgr, 2), Err(EngineError::NotFound(2)));
}

#[test]
fn scenario_failed_display_launch_leaves_no_processes_behind() {
    let mut mgr = Manager::new();
    let (s, _req) = match mgr.on_event(ManagerEvent::EngineSpawn(file_config(
        3,
        "https://example.test",
    ))) {
        EventStep::Spawning(s, req) => (s, req),
        _ => panic!("the spawn may proceed"),
    };
    let (s, _req) = match s.step(EngineEvent::BusLaunched("unix:abstract=bus".to_string())) {
        StartStep::Launch(s, req) => (s, req),
        _ => panic!("expected the display launch"),
    };
    // The display server fails deterministically; the bus is unwound.
    let u = match s.step(EngineEvent::LaunchFailed) {
        StartStep::Unwind(u, k) => {
            assert_eq!(k, ResourceKind::Dbus);
            u
        }
        _ => panic!("a failed launch must unwind the started resources"),
    };
    match u.step(EngineEvent::StepOk) {
        tapedeck::engine::UnwindStep::Failed(f) => {
            assert_eq!(f.error, EngineError::LaunchFailure(ResourceKind::Xvfb));
            assert_eq!(f.resources.dbus, ResourceState::Down);
            assert_eq!(f.resources.xvfb, ResourceState::Absent);
            assert_eq!(f.resources.pulse, ResourceState::Absent);
            assert_eq!(f.error.describe(), "error: failed to launch Xvfb");
        }
        _ => panic!("only the bus was live"),
    }
    // Nothing was installed.
    assert!(!mgr.contains(3));
    assert_eq!(mgr.len(), 0);
}

#[test]
fn stopping_an_unknown_id_mutates_nothing() {
    let mut mgr = Manager::new();
    assert_eq!(spawn(&mut mgr, file_config(4, "https://example.test")), Ok(()));
    match mgr.on_event(ManagerEvent::EngineStop(9)) {
        EventStep::Rejected(e) => assert_eq!(e, EngineError::NotFound(9)),
        _ => panic!("an unknown id must be rejected as not found"),
    }
    assert!(mgr.contains(4));
    assert_eq!(mgr.len(), 1);
}

#[test]
fn distinct_ids_spawn_independently() {
    let mut mgr = Manager::new();
    assert_eq!(spawn(&mut mgr, file_config(11, "https://one.test")), Ok(()));
    assert_eq!(spawn(&mut mgr, file_config(12, "https://two.test")), Ok(()));
    assert_eq!(spawn(&mut mgr, file_config(13, "https://three.test")), Ok(()));
    assert_eq!(mgr.len(), 3);
    assert!(mgr.contains(11));
    assert!(mgr.contains(12));
    assert!(mgr.contains(13));
    // Stopping one session does not disturb the others.
    assert_eq!(stop(&mut mgr, 12), Ok(()));
    assert_eq!(mgr.len(), 2);
    assert!(mgr.contains(11));
    assert!(!mgr.contains(12));
    assert!(mgr.contains(13));
}

#[test]
fn an_invalid_spawn_is_rejected_by_the_registry() {
    let mut mgr = Manager::new();
    let mut cfg = file_config(5, "https://example.test");
    cfg.id = 20000;
    match mgr.on_event(ManagerEvent::EngineSpawn(cfg)) {
        EventStep::Rejected(e) => assert_eq!(e, EngineError::InvalidConfig),
        _ => panic!("an out-of-range id must be rejected"),
    }
    assert_eq!(mgr.len(), 0);
}

#[test]
fn installing_over_a_live_id_returns_the_engine_and_a_conflict() {
    let mut mgr = Manager::new();
    assert_eq!(spawn(&mut mgr, file_config(6, "https://example.test")), Ok(()));
    // Start a second session with the same id outside the registry, then
    // try to install it.
    let (s, _req) = Engine::new(file_config(6, "https://example.test")).unwrap();
    let mut step = s.step(EngineEvent::BusLaunched("unix:abstract=bus".to_string()));
    let eng = loop {
        match step {
            StartStep::Launch(s2, _req) => step = s2.step(EngineEvent::Launched),
            StartStep::Ready(e) => break e,
            _ => panic!("every launch succeeded in this scenario"),
        }
    };
    match mgr.install(eng) {
        Err((eng_back, e)) => {
            assert_eq!(e, EngineError::Conflict(6));
            assert_eq!(eng_back.id(), 6);
            assert!(eng_back.is_running());
        }
        Ok(()) => panic!("a live id must be rejected as a conflict"),
    }
    assert_eq!(mgr.len(), 1);
}

#[test]
fn failure_descriptions_are_exact() {
    assert_eq!(EngineError::NotFound(5).describe(), "error: no engine found key=5");
    assert_eq!(EngineError::Conflict(42).describe(), "error: engine already running key=42");
    assert_eq!(
        EngineError::LaunchFailure(ResourceKind::Pulse).describe(),
        "error: failed to launch pulseaudio"
    );
    assert_eq!(
        EngineError::NavigationFailure.describe(),
        "error: browser failed to load the target url"
    );
    assert_eq!(EngineError::InvalidConfig.describe(), "error: invalid engine config");
    assert_eq!(
        EngineError::ShutdownPartialFailure(StopStep::AwaitEos).describe(),
        "error: couldn't stop engine at await eos"
    );
    assert_eq!(
        EngineError::ShutdownPartialFailure(StopStep::StopDbus).describe(),
        "error: couldn't stop engine at stop dbus-daemon"
    );
}
