//! The registry that supervises many concurrent sessions.
//!
//! The manager owns the only mapping from session id to [`Engine`] and is
//! the only component allowed to mutate it. The surrounding process
//! runner feeds it one [`ManagerEvent`] at a time from a single control
//! loop, so requests are strictly serialized: two callers targeting the
//! same id can never observe a torn state.
//!
//! A spawn for an id that is already live is rejected with a conflict and
//! leaves the existing session untouched; a stop for an id with no live
//! session is rejected as not found and mutates nothing. A stopped
//! session is removed from the mapping before its teardown runs and is
//! never reinserted, whatever the teardown reports — the registry never
//! holds half-stopped sessions.

use vstd::prelude::*;
use std::collections::HashMap;
use crate::config::EngineConfig;
use crate::engine::Engine;
use crate::engine::EngineShutdown;
use crate::engine::EngineStartup;
use crate::engine::LaunchRequest;
use crate::engine::StopRequest;
use crate::errors::EngineError;

verus! {

broadcast use vstd::std_specs::hash::group_hash_axioms;

/// A lifecycle request submitted to the manager's control loop.
pub enum ManagerEvent {
    /// Start a session with this configuration.
    EngineSpawn(EngineConfig),
    /// Stop, and remove, the session with this id.
    EngineStop(u32),
}

/// What the manager decides for one event: begin a startup, begin a
/// teardown, or reject the request outright.
pub enum EventStep {
    /// The spawn may proceed: drive this startup machine, then hand the
    /// running engine back to [`Manager::install`].
    Spawning(EngineStartup, LaunchRequest),
    /// The id was live and has been removed: drive this shutdown machine
    /// to completion.
    Stopping(EngineShutdown, StopRequest),
    /// The request is rejected; reply with this error.
    Rejected(EngineError),
}

/// The registry of live sessions, keyed by session id.
pub struct Manager {
    engines: HashMap<u32, Engine>,
}

impl View for Manager {
    type V = Map<u32, Engine>;

    closed spec fn view(&self) -> Map<u32, Engine> {
        self.engines@
    }
}

impl Manager {
    /// The registry invariant: every registered engine is well-formed,
    /// running, and stored under its own id.
    pub open spec fn wf(self) -> bool {
        forall|k: u32| #[trigger]
            self@.contains_key(k) ==> self@[k].wf() && self@[k]@.phase is Running && self@[k]@.id
                == k
    }

    /// An empty registry.
    pub fn new() -> (m: Manager)
        ensures
            m@ == Map::<u32, Engine>::empty(),
            m.wf(),
    {
        Manager { engines: HashMap::new() }
    }

    /// How many sessions are live.
    pub fn len(&self) -> (n: usize)
        ensures
            n == self@.len(),
    {
        self.engines.len()
    }

    /// Whether a session with this id is live.
    pub fn contains(&self, id: u32) -> (r: bool)
        ensures
            r == self@.contains_key(id),
    {
        self.engines.contains_key(&id)
    }

    /// Whether a session with this id is registered and running (every
    /// registered session is, by the registry invariant).
    pub fn is_running(&self, id: u32) -> (r: bool)
        requires
            self.wf(),
        ensures
            r == self@.contains_key(id),
            r ==> self@[id]@.phase is Running,
    {
        match self.engines.get(&id) {
            Some(e) => e.is_running(),
            None => false,
        }
    }

    /// Decides a spawn request without mutating anything: an id that is
    /// already live is a conflict and the existing session is left
    /// untouched; an invalid configuration is rejected; otherwise the
    /// startup machine for the new session is returned.
    pub fn begin_spawn(&self, cfg: EngineConfig) -> (r: Result<
        (EngineStartup, LaunchRequest),
        EngineError,
    >)
        requires
            self.wf(),
        ensures
            self@.contains_key(cfg.id) ==> (r matches Err(e) && e == EngineError::Conflict(
                cfg.id,
            )),
            !self@.contains_key(cfg.id) && !cfg.valid() ==> (r matches Err(e) && e
                == EngineError::InvalidConfig),
            !self@.contains_key(cfg.id) && cfg.valid() ==> (r matches Ok((s, req)) && s.wf()
                && s.cfg == cfg && s.awaiting is Dbus && s.dbus_addr is None && req is Dbus),
    {
        if self.engines.contains_key(&cfg.id) {
            return Err(EngineError::Conflict(cfg.id));
        }
        Engine::new(cfg)
    }

    /// Installs a freshly started engine under its id. If the id became
    /// live in the meantime the engine is returned as a conflict and the
    /// registry is unchanged; otherwise the mapping gains exactly this
    /// one entry.
    pub fn install(&mut self, eng: Engine) -> (r: Result<(), (Engine, EngineError)>)
        requires
            old(self).wf(),
            eng.wf(),
            eng@.phase is Running,
        ensures
            final(self).wf(),
            !old(self)@.contains_key(eng@.id) ==> final(self)@ == old(self)@.insert(eng@.id, eng)
                && r is Ok,
            old(self)@.contains_key(eng@.id) ==> final(self)@ == old(self)@ && (r matches Err(
                (e, er),
            ) && e == eng && er == EngineError::Conflict(eng@.id)),
    {
        let id = eng.id();
        if self.engines.contains_key(&id) {
            return Err((eng, EngineError::Conflict(id)));
        }
        self.engines.insert(id, eng);
        Ok(())
    }

    /// Decides a stop request: an id with no live session is not found
    /// and nothing is mutated; otherwise the session is removed from the
    /// mapping — it is never reinserted, whatever its teardown reports —
    /// and its shutdown machine is returned.
    pub fn begin_stop(&mut self, id: u32) -> (r: Result<
        (EngineShutdown, StopRequest),
        EngineError,
    >)
        requires
            old(self).wf(),
        ensures
            final(self).wf(),
            !old(self)@.contains_key(id) ==> final(self)@ == old(self)@ && (r matches Err(e) && e
                == EngineError::NotFound(id)),
            old(self)@.contains_key(id) ==> final(self)@ == old(self)@.remove(id) && (r matches Ok(
                (sd, req),
            ) && sd.wf() && sd.id == id && sd.resources == old(self)@[id]@.resources
                && sd.has_debug == old(self)@[id]@.has_debug && sd.pending is SendEos
                && sd.first_failure is None && req is SendEos),
    {
        match self.engines.remove(&id) {
            None => Err(EngineError::NotFound(id)),
            Some(eng) => Ok(eng.stop()),
        }
    }

    /// The control loop's decision for one request. Spawns and stops are
    /// serialized by the single consumer of the event channel; this
    /// function applies the registry policy for one event.
    pub fn on_event(&mut self, ev: ManagerEvent) -> (r: EventStep)
        requires
            old(self).wf(),
        ensures
            final(self).wf(),
            (ev matches ManagerEvent::EngineSpawn(cfg) ==> final(self)@ == old(self)@ && (match r {
                EventStep::Spawning(s, req) => !old(self)@.contains_key(cfg.id) && cfg.valid()
                    && s.wf() && s.cfg == cfg && s.awaiting is Dbus && req is Dbus,
                EventStep::Rejected(e) => (old(self)@.contains_key(cfg.id) && e
                    == EngineError::Conflict(cfg.id)) || (!old(self)@.contains_key(cfg.id)
                    && !cfg.valid() && e == EngineError::InvalidConfig),
                EventStep::Stopping(..) => false,
            })),
            (ev matches ManagerEvent::EngineStop(id) ==> (match r {
                EventStep::Stopping(sd, req) => old(self)@.contains_key(id) && final(self)@ == old(
                    self,
                )@.remove(id) && sd.wf() && sd.id == id && sd.resources == old(self)@[id]@.resources
                    && sd.has_debug == old(self)@[id]@.has_debug && sd.pending is SendEos
                    && sd.first_failure is None && req is SendEos,
                EventStep::Rejected(e) => !old(self)@.contains_key(id) && final(self)@ == old(
                    self,
                )@ && e == EngineError::NotFound(id),
                EventStep::Spawning(..) => false,
            })),
    {
        match ev {
            ManagerEvent::EngineSpawn(cfg) => match self.begin_spawn(cfg) {
                Ok((s, req)) => EventStep::Spawning(s, req),
                Err(e) => EventStep::Rejected(e),
            },
            ManagerEvent::EngineStop(id) => match self.begin_stop(id) {
                Ok((sd, req)) => EventStep::Stopping(sd, req),
                Err(e) => EventStep::Rejected(e),
            },
        }
    }
}

/// Spawns under distinct ids are independent. `install` ensures that a
/// successful spawn turns the registry `m` into `m.insert(id, eng)`; this
/// law states that two such spawns with distinct ids each install exactly
/// one session under its own id, and that no other entry is created,
/// removed or disturbed.
pub proof fn lemma_spawn_independent(
    m: Map<u32, Engine>,
    id1: u32,
    id2: u32,
    e1: Engine,
    e2: Engine,
)
    requires
        id1 != id2,
    ensures
        m.insert(id1, e1).insert(id2, e2).contains_key(id1),
        m.insert(id1, e1).insert(id2, e2).contains_key(id2),
        m.insert(id1, e1).insert(id2, e2)[id1] == e1,
        m.insert(id1, e1).insert(id2, e2)[id2] == e2,
        forall|k: u32|
            k != id1 && k != id2 ==> (#[trigger] m.insert(id1, e1).insert(id2, e2).contains_key(k)
                <==> m.contains_key(k)),
        forall|k: u32|
            k != id1 && k != id2 && m.contains_key(k) ==> #[trigger] m.insert(id1, e1).insert(
                id2,
                e2,
            )[k] == m[k],
{
}

/// Stopping is idempotent at the registry boundary. `begin_stop` ensures
/// that stopping a live id turns the registry `m` into `m.remove(id)`;
/// this law states that the id is then absent, so a second stop for the
/// same id is answered with `NotFound` (again by `begin_stop`'s contract)
/// and can never re-trigger teardown side effects.
pub proof fn lemma_stop_idempotent(m: Map<u32, Engine>, id: u32)
    ensures
        !m.remove(id).contains_key(id),
{
}

} // verus!
