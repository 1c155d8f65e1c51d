//! The Online/Offline classification made once at startup.
use vstd::prelude::*;

verus! {

/// Whether the primary store answered the startup probe.
#[derive(Clone, Copy, Debug, PartialEq, Eq, Structural)]
pub enum AppMode {
    Online,
    Offline,
}

/// What the single reachability probe of the primary came back with.
#[derive(Clone, Copy, Debug, PartialEq, Eq, Structural)]
pub enum ProbeOutcome {
    /// A response arrived within the time budget, with this HTTP status.
    Responded { status: u16 },
    /// No response: connection refused, network error or timeout.
    Unreachable,
}

/// An HTTP status in the success class (2xx).
pub open spec fn is_success_status(status: u16) -> bool {
    200 <= status && status <= 299
}

/// The mode that a probe outcome stands for: Online exactly on a 2xx answer.
pub open spec fn mode_of(outcome: ProbeOutcome) -> AppMode {
    match outcome {
        ProbeOutcome::Responded { status } => if is_success_status(status) {
            AppMode::Online
        } else {
            AppMode::Offline
        },
        ProbeOutcome::Unreachable => AppMode::Offline,
    }
}

/// Folds a probe outcome into a mode; every failure becomes Offline.
pub fn classify_probe(outcome: ProbeOutcome) -> (r: AppMode)
    ensures
        r == mode_of(outcome),
        r == AppMode::Online <==> (outcome matches ProbeOutcome::Responded { status }
            && is_success_status(status)),
{
    match outcome {
        ProbeOutcome::Responded { status } => {
            if 200 <= status && status <= 299 {
                AppMode::Online
            } else {
                AppMode::Offline
            }
        },
        ProbeOutcome::Unreachable => AppMode::Offline,
    }
}

/// Whether the mode records write intents in the change log.
pub fn records_changes(mode: AppMode) -> (r: bool)
    ensures
        r <==> mode == AppMode::Offline,
{
    match mode {
        AppMode::Online => false,
        AppMode::Offline => true,
    }
}

/// The process-wide mode. It is set once from the startup probe; `transition`
/// is the single place where a later health check would change it.
#[derive(Debug)]
pub struct ModeState {
    mode: AppMode,
}

impl View for ModeState {
    type V = AppMode;

    closed spec fn view(&self) -> AppMode {
        self.mode
    }
}

impl ModeState {
    /// Holds the mode found at startup.
    pub fn new(mode: AppMode) -> (r: ModeState)
        ensures
            r@ == mode,
    {
        ModeState { mode }
    }

    /// The current mode.
    pub fn get_mode(&self) -> (r: AppMode)
        ensures
            r == self@,
    {
        self.mode
    }

    /// Moves to `to`, and reports whether the mode changed.
    pub fn transition(&mut self, to: AppMode) -> (changed: bool)
        ensures
            final(self)@ == to,
            changed <==> old(self)@ != to,
    {
        let changed = self.mode != to;
        self.mode = to;
        changed
    }
}

} // verus!
