//! Startup as a sequence of decisions: probe the primary, build a replica or a
//! local-only store, ensure the schema, then serve or abort. The caller performs
//! each requested action and reports back what happened.
use vstd::prelude::*;
use crate::mode::{AppMode, ProbeOutcome, mode_of, classify_probe};

verus! {

/// Which kind of store the connection was built on.
#[derive(Clone, Copy, Debug, PartialEq, Eq, Structural)]
pub enum StoreKind {
    /// A local copy synchronised with the primary.
    Replica,
    /// A standalone local database with no synchronisation target.
    LocalOnly,
}

/// Where startup stands.
#[derive(Clone, Copy, Debug, PartialEq, Eq, Structural)]
pub enum StartupPhase {
    Probing,
    BuildingReplica,
    BuildingLocal { mode: AppMode },
    EnsuringSchema { mode: AppMode, store: StoreKind },
    Ready { mode: AppMode, store: StoreKind },
    Aborted,
}

/// What the caller reports after performing the requested action.
#[derive(Clone, Copy, Debug, PartialEq, Eq, Structural)]
pub enum StartupEvent {
    Probed(ProbeOutcome),
    ReplicaBuilt,
    ReplicaFailed,
    LocalBuilt,
    LocalFailed,
    SchemaEnsured,
    SchemaFailed,
}

/// A failure that was absorbed rather than surfaced, for operators to observe.
#[derive(Clone, Copy, Debug, PartialEq, Eq, Structural)]
pub enum Notice {
    /// The probe failed; startup continues offline.
    ReachabilityFailure,
    /// The replica could not be built; startup falls back to a local-only store.
    ReplicaBuildFailure,
    /// Schema definition was rejected; startup continues with the schema in place.
    SchemaFailure,
}

/// The one condition that ends startup without a connection.
#[derive(Clone, Copy, Debug, PartialEq, Eq, Structural)]
pub enum StartupError {
    LocalStoreFailure,
}

/// The settings that startup consumes.
#[derive(Debug)]
pub struct StartupConfig {
    pub primary_url: String,
    pub auth_token: String,
    pub local_path: String,
    pub sync_interval_secs: u64,
    pub probe_timeout_ms: u64,
}

/// What the caller is asked to do next.
#[derive(Debug)]
pub enum StartupAction {
    /// Send one bounded-time request to the primary.
    Probe { primary_url: String, timeout_ms: u64 },
    /// Build a replica at `local_path` synchronised with `primary_url`.
    BuildReplica {
        local_path: String,
        primary_url: String,
        auth_token: String,
        sync_interval_secs: u64,
    },
    /// Build a local-only store at `local_path`; no network is used.
    BuildLocal { local_path: String },
    /// Run the schema plan on the new connection.
    EnsureSchema,
    /// Startup is over: serve requests in this mode on this store.
    Serve { mode: AppMode, store: StoreKind },
    /// Startup is over without a connection.
    Abort(StartupError),
}

/// The phase after `event` arrives in `phase`. An event that does not answer
/// the phase's pending action leaves the phase as it is.
pub open spec fn next_phase(phase: StartupPhase, event: StartupEvent) -> StartupPhase {
    match (phase, event) {
        (StartupPhase::Probing, StartupEvent::Probed(o)) => if mode_of(o) == AppMode::Online {
            StartupPhase::BuildingReplica
        } else {
            StartupPhase::BuildingLocal { mode: AppMode::Offline }
        },
        (StartupPhase::BuildingReplica, StartupEvent::ReplicaBuilt) => StartupPhase::EnsuringSchema {
            mode: AppMode::Online,
            store: StoreKind::Replica,
        },
        (StartupPhase::BuildingReplica, StartupEvent::ReplicaFailed) => StartupPhase::BuildingLocal {
            mode: AppMode::Online,
        },
        (StartupPhase::BuildingLocal { mode }, StartupEvent::LocalBuilt) => StartupPhase::EnsuringSchema {
            mode,
            store: StoreKind::LocalOnly,
        },
        (StartupPhase::BuildingLocal { mode }, StartupEvent::LocalFailed) => StartupPhase::Aborted,
        (StartupPhase::EnsuringSchema { mode, store }, StartupEvent::SchemaEnsured) => StartupPhase::Ready {
            mode,
            store,
        },
        (StartupPhase::EnsuringSchema { mode, store }, StartupEvent::SchemaFailed) => StartupPhase::Ready {
            mode,
            store,
        },
        _ => phase,
    }
}

/// The failure absorbed by the transition, if any.
pub open spec fn notice_of(phase: StartupPhase, event: StartupEvent) -> Option<Notice> {
    match (phase, event) {
        (StartupPhase::Probing, StartupEvent::Probed(o)) => if mode_of(o) == AppMode::Online {
            None
        } else {
            Some(Notice::ReachabilityFailure)
        },
        (StartupPhase::BuildingReplica, StartupEvent::ReplicaFailed) => Some(
            Notice::ReplicaBuildFailure,
        ),
        (StartupPhase::EnsuringSchema { .. }, StartupEvent::SchemaFailed) => Some(
            Notice::SchemaFailure,
        ),
        _ => None,
    }
}

/// The phase reached from `phase` after the events in order.
pub open spec fn run(phase: StartupPhase, events: Seq<StartupEvent>) -> StartupPhase
    decreases events.len(),
{
    if events.len() == 0 {
        phase
    } else {
        run(next_phase(phase, events[0]), events.drop_first())
    }
}

/// The phases that follow a failed probe.
pub open spec fn offline_path(phase: StartupPhase) -> bool {
    match phase {
        StartupPhase::BuildingLocal { mode } => mode == AppMode::Offline,
        StartupPhase::EnsuringSchema { mode, store } => mode == AppMode::Offline && store
            == StoreKind::LocalOnly,
        StartupPhase::Ready { mode, store } => mode == AppMode::Offline && store
            == StoreKind::LocalOnly,
        StartupPhase::Aborted => true,
        _ => false,
    }
}

/// The phases that follow a successful probe.
pub open spec fn online_path(phase: StartupPhase) -> bool {
    match phase {
        StartupPhase::BuildingReplica => true,
        StartupPhase::BuildingLocal { mode } => mode == AppMode::Online,
        StartupPhase::EnsuringSchema { mode, .. } => mode == AppMode::Online,
        StartupPhase::Ready { mode, .. } => mode == AppMode::Online,
        StartupPhase::Aborted => true,
        _ => false,
    }
}

/// The phases in which the connection rests on a local-only store.
pub open spec fn on_local_store(phase: StartupPhase) -> bool {
    match phase {
        StartupPhase::BuildingLocal { .. } => true,
        StartupPhase::EnsuringSchema { store, .. } => store == StoreKind::LocalOnly,
        StartupPhase::Ready { store, .. } => store == StoreKind::LocalOnly,
        StartupPhase::Aborted => true,
        _ => false,
    }
}

proof fn lemma_run_cons(phase: StartupPhase, e: StartupEvent, events: Seq<StartupEvent>)
    ensures
        run(phase, seq![e] + events) == run(next_phase(phase, e), events),
{
    assert((seq![e] + events).drop_first() =~= events);
}

proof fn lemma_offline_path_closed(phase: StartupPhase, events: Seq<StartupEvent>)
    requires
        offline_path(phase),
    ensures
        offline_path(run(phase, events)),
    decreases events.len(),
{
    if events.len() > 0 {
        lemma_offline_path_closed(next_phase(phase, events[0]), events.drop_first());
    }
}

proof fn lemma_online_path_closed(phase: StartupPhase, events: Seq<StartupEvent>)
    requires
        online_path(phase),
    ensures
        online_path(run(phase, events)),
    decreases events.len(),
{
    if events.len() > 0 {
        lemma_online_path_closed(next_phase(phase, events[0]), events.drop_first());
    }
}

proof fn lemma_replica_store_kept(phase: StartupPhase, events: Seq<StartupEvent>)
    requires
        phase == (StartupPhase::EnsuringSchema { mode: AppMode::Online, store: StoreKind::Replica })
            || phase == (StartupPhase::Ready { mode: AppMode::Online, store: StoreKind::Replica }),
    ensures
        !on_local_store(run(phase, events)),
    decreases events.len(),
{
    if events.len() > 0 {
        lemma_replica_store_kept(next_phase(phase, events[0]), events.drop_first());
    }
}

proof fn lemma_local_store_needs_replica_failure(events: Seq<StartupEvent>)
    requires
        on_local_store(run(StartupPhase::BuildingReplica, events)),
    ensures
        exists|i: int| 0 <= i < events.len() && events[i] == StartupEvent::ReplicaFailed,
    decreases events.len(),
{
    let first = events[0];
    if first == StartupEvent::ReplicaFailed {
        assert(events[0] == StartupEvent::ReplicaFailed);
    } else if first == StartupEvent::ReplicaBuilt {
        lemma_replica_store_kept(next_phase(StartupPhase::BuildingReplica, first), events.drop_first());
    } else {
        lemma_local_store_needs_replica_failure(events.drop_first());
        let i = choose|i: int|
            0 <= i < events.drop_first().len() && events.drop_first()[i]
                == StartupEvent::ReplicaFailed;
        assert(events[i + 1] == StartupEvent::ReplicaFailed);
    }
}

/// When the probe fails, startup never attempts a replica: whatever comes
/// after, the phase reached is on the offline path, and a ready connection is
/// offline and rests on a local-only store.
pub proof fn lemma_failed_probe_stays_local(outcome: ProbeOutcome, events: Seq<StartupEvent>)
    requires
        mode_of(outcome) == AppMode::Offline,
    ensures
        next_phase(StartupPhase::Probing, StartupEvent::Probed(outcome)) == (StartupPhase::BuildingLocal {
            mode: AppMode::Offline,
        }),
        offline_path(run(StartupPhase::Probing, seq![StartupEvent::Probed(outcome)] + events)),
        run(StartupPhase::Probing, seq![StartupEvent::Probed(outcome)] + events)
            != StartupPhase::BuildingReplica,
{
    lemma_run_cons(StartupPhase::Probing, StartupEvent::Probed(outcome), events);
    lemma_offline_path_closed(StartupPhase::BuildingLocal { mode: AppMode::Offline }, events);
}

/// When the probe succeeds, the next step is a replica build; whatever comes
/// after, the mode stays Online, and a local-only store is reached only after a
/// replica build has failed.
pub proof fn lemma_reachable_primary_tries_replica_first(
    outcome: ProbeOutcome,
    events: Seq<StartupEvent>,
)
    requires
        mode_of(outcome) == AppMode::Online,
    ensures
        next_phase(StartupPhase::Probing, StartupEvent::Probed(outcome))
            == StartupPhase::BuildingReplica,
        online_path(run(StartupPhase::Probing, seq![StartupEvent::Probed(outcome)] + events)),
        on_local_store(run(StartupPhase::Probing, seq![StartupEvent::Probed(outcome)] + events))
            ==> exists|i: int| 0 <= i < events.len() && events[i] == StartupEvent::ReplicaFailed,
{
    lemma_run_cons(StartupPhase::Probing, StartupEvent::Probed(outcome), events);
    lemma_online_path_closed(StartupPhase::BuildingReplica, events);
    if on_local_store(run(StartupPhase::BuildingReplica, events)) {
        lemma_local_store_needs_replica_failure(events);
    }
}

/// A failure to open the local store ends startup: the pending action is the
/// abort, and no later event brings startup out of it.
pub proof fn lemma_local_failure_aborts(mode: AppMode, events: Seq<StartupEvent>)
    ensures
        next_phase(StartupPhase::BuildingLocal { mode }, StartupEvent::LocalFailed)
            == StartupPhase::Aborted,
        run(StartupPhase::Aborted, events) == StartupPhase::Aborted,
    decreases events.len(),
{
    if events.len() > 0 {
        lemma_local_failure_aborts(mode, events.drop_first());
    }
}

/// The action pending in `phase`, given the settings.
pub open spec fn pending_action(config: StartupConfig, phase: StartupPhase, action: StartupAction) -> bool {
    match phase {
        StartupPhase::Probing => match action {
            StartupAction::Probe { primary_url, timeout_ms } => primary_url@ == config.primary_url@
                && timeout_ms == config.probe_timeout_ms,
            _ => false,
        },
        StartupPhase::BuildingReplica => match action {
            StartupAction::BuildReplica { local_path, primary_url, auth_token, sync_interval_secs } =>
                local_path@ == config.local_path@ && primary_url@ == config.primary_url@
                    && auth_token@ == config.auth_token@ && sync_interval_secs
                    == config.sync_interval_secs,
            _ => false,
        },
        StartupPhase::BuildingLocal { .. } => match action {
            StartupAction::BuildLocal { local_path } => local_path@ == config.local_path@,
            _ => false,
        },
        StartupPhase::EnsuringSchema { .. } => action is EnsureSchema,
        StartupPhase::Ready { mode, store } => match action {
            StartupAction::Serve { mode: m, store: k } => m == mode && k == store,
            _ => false,
        },
        StartupPhase::Aborted => action == StartupAction::Abort(StartupError::LocalStoreFailure),
    }
}

/// What one step hands back to the caller.
pub struct StepOutput {
    pub action: StartupAction,
    pub notice: Option<Notice>,
}

/// The startup sequence: settings and the phase reached so far.
pub struct Startup {
    pub config: StartupConfig,
    pub phase: StartupPhase,
}

fn copy_string(s: &String) -> (r: String)
    ensures
        r@ == s@,
{
    s.clone()
}

impl Startup {
    /// Begins startup; the first action is the probe of the primary.
    pub fn new(config: StartupConfig) -> (r: (Startup, StartupAction))
        ensures
            r.0.config == config,
            r.0.phase == StartupPhase::Probing,
            pending_action(config, r.0.phase, r.1),
    {
        let action = Startup::action_for(&config, StartupPhase::Probing);
        (Startup { config, phase: StartupPhase::Probing }, action)
    }

    /// The action pending in `phase`.
    pub fn action_for(config: &StartupConfig, phase: StartupPhase) -> (r: StartupAction)
        ensures
            pending_action(*config, phase, r),
    {
        match phase {
            StartupPhase::Probing => StartupAction::Probe {
                primary_url: copy_string(&config.primary_url),
                timeout_ms: config.probe_timeout_ms,
            },
            StartupPhase::BuildingReplica => StartupAction::BuildReplica {
                local_path: copy_string(&config.local_path),
                primary_url: copy_string(&config.primary_url),
                auth_token: copy_string(&config.auth_token),
                sync_interval_secs: config.sync_interval_secs,
            },
            StartupPhase::BuildingLocal { .. } => StartupAction::BuildLocal {
                local_path: copy_string(&config.local_path),
            },
            StartupPhase::EnsuringSchema { .. } => StartupAction::EnsureSchema,
            StartupPhase::Ready { mode, store } => StartupAction::Serve { mode, store },
            StartupPhase::Aborted => StartupAction::Abort(StartupError::LocalStoreFailure),
        }
    }

    /// Takes in what the last action came to and says what to do next.
    pub fn step(&mut self, event: StartupEvent) -> (r: StepOutput)
        ensures
            final(self).config == old(self).config,
            final(self).phase == next_phase(old(self).phase, event),
            r.notice == notice_of(old(self).phase, event),
            pending_action(final(self).config, final(self).phase, r.action),
    {
        let (phase, notice) = match (self.phase, event) {
            (StartupPhase::Probing, StartupEvent::Probed(o)) => {
                match classify_probe(o) {
                    AppMode::Online => (StartupPhase::BuildingReplica, None),
                    AppMode::Offline => (
                        StartupPhase::BuildingLocal { mode: AppMode::Offline },
                        Some(Notice::ReachabilityFailure),
                    ),
                }
            },
            (StartupPhase::BuildingReplica, StartupEvent::ReplicaBuilt) => (
                StartupPhase::EnsuringSchema { mode: AppMode::Online, store: StoreKind::Replica },
                None,
            ),
            (StartupPhase::BuildingReplica, StartupEvent::ReplicaFailed) => (
                StartupPhase::BuildingLocal { mode: AppMode::Online },
                Some(Notice::ReplicaBuildFailure),
            ),
            (StartupPhase::BuildingLocal { mode }, StartupEvent::LocalBuilt) => (
                StartupPhase::EnsuringSchema { mode, store: StoreKind::LocalOnly },
                None,
            ),
            (StartupPhase::BuildingLocal { .. }, StartupEvent::LocalFailed) => (
                StartupPhase::Aborted,
                None,
            ),
            (StartupPhase::EnsuringSchema { mode, store }, StartupEvent::SchemaEnsured) => (
                StartupPhase::Ready { mode, store },
                None,
            ),
            (StartupPhase::EnsuringSchema { mode, store }, StartupEvent::SchemaFailed) => (
                StartupPhase::Ready { mode, store },
                Some(Notice::SchemaFailure),
            ),
            (p, _) => (p, None),
        };
        self.phase = phase;
        let action = Startup::action_for(&self.config, phase);
        StepOutput { action, notice }
    }
}

} // verus!
