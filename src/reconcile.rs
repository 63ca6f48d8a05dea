//! The polling cycle as a state machine.
//!
//! A cycle runs resolve, compare, update, persist, sleep. The caller performs
//! each [`Action`] that [`Reconciler::step`] returns and reports what came of it
//! as the next [`Event`]; the decisions are all made here.
use vstd::prelude::*;
use crate::address::{Interface, ResolveError, has_prefix, resolve, resolve_spec};
use crate::dns::{Config, UpdateRequest, build_update, is_request_for};

verus! {

/// Where the cycle stands, and what it has learned so far.
#[derive(Clone, Debug)]
pub enum Phase {
    /// Between cycles: waiting for the next tick.
    Idle,
    /// The interfaces have been asked for.
    Discover,
    /// `observed` was resolved; the stored address has been asked for.
    Compare { observed: String },
    /// `observed` differs from what was stored; the update has been sent.
    Update { observed: String },
    /// The update was attempted; `observed` is being written to the state file.
    Persist { observed: String, update_ok: bool },
}

/// What the caller reports back after performing an action.
#[derive(Clone, Debug)]
pub enum Event {
    /// The start of a cycle: at startup, and after each sleep.
    Tick,
    /// The interfaces the system reports, in its order.
    Interfaces(Vec<Interface>),
    /// What the state file holds; `None` when it is absent or unreadable.
    StoredState(Option<String>),
    /// The update attempt finished; `ok` when the provider accepted it.
    UpdateFinished { ok: bool },
    /// The state file was written; `ok` when the write succeeded.
    WriteFinished { ok: bool },
}

/// How a cycle ended, for the caller to report.
#[derive(Clone, Copy, Debug, PartialEq, Eq, Structural)]
pub enum Outcome {
    /// No address could be chosen; nothing else was done.
    DiscoveryFailed(ResolveError),
    /// The address matches the stored one; nothing was sent or written.
    Unchanged,
    /// The address changed; the update was attempted and the new address written.
    Recorded { update_ok: bool, write_ok: bool },
}

/// What the caller is asked to do next.
#[derive(Clone, Debug)]
pub enum Action {
    /// List the system's interfaces and report them.
    ListInterfaces,
    /// Read the state file at `path` and report its contents.
    ReadState { path: String },
    /// Send this update to the provider, once, and report whether it succeeded.
    SendUpdate(UpdateRequest),
    /// Overwrite the state file at `path` with `content`.
    WriteState { path: String, content: String },
    /// Sleep `secs` seconds, then report a tick.
    Sleep { secs: u64, outcome: Outcome },
}

/// `event` is what `phase` waits for.
pub open spec fn accepts(phase: Phase, event: Event) -> bool {
    match phase {
        Phase::Idle => event is Tick,
        Phase::Discover => event is Interfaces,
        Phase::Compare { .. } => event is StoredState,
        Phase::Update { .. } => event is UpdateFinished,
        Phase::Persist { .. } => event is WriteFinished,
    }
}

/// `stored` does not hold `observed`: absent state counts as a change.
pub open spec fn is_change(stored: Option<String>, observed: Seq<char>) -> bool {
    match stored {
        Some(s) => s@ != observed,
        None => true,
    }
}

/// `act` publishes `address` under `cfg`.
pub open spec fn sends_update_of(cfg: Config, act: Action, address: Seq<char>) -> bool {
    match act {
        Action::SendUpdate(req) => is_request_for(cfg, req, address),
        _ => false,
    }
}

/// `act` writes `content` to the configured state file.
pub open spec fn writes_state(cfg: Config, act: Action, content: Seq<char>) -> bool {
    match act {
        Action::WriteState { path, content: c } => path@ == cfg.state_path@ && c@ == content,
        _ => false,
    }
}

/// `act` ends the cycle with `outcome`, sleeping the configured interval.
pub open spec fn sleeps_after(cfg: Config, act: Action, outcome: Outcome) -> bool {
    act == Action::Sleep { secs: cfg.interval_secs, outcome }
}

/// Under `cfg`, `event` in phase `pre` leads to phase `post` and action `act`.
pub open spec fn steps_to(cfg: Config, pre: Phase, event: Event, post: Phase, act: Action) -> bool {
    match (pre, event) {
        (Phase::Idle, Event::Tick) => post == Phase::Discover && act == Action::ListInterfaces,
        (Phase::Discover, Event::Interfaces(ifaces)) => match resolve_spec(
            ifaces@,
            cfg.interface_prefix@,
        ) {
            Ok(a) => {
                &&& post matches Phase::Compare { observed } && observed@ == a
                &&& act matches Action::ReadState { path } && path@ == cfg.state_path@
            },
            Err(e) => post == Phase::Idle && sleeps_after(cfg, act, Outcome::DiscoveryFailed(e)),
        },
        (Phase::Compare { observed }, Event::StoredState(stored)) => if is_change(
            stored,
            observed@,
        ) {
            post == Phase::Update { observed } && sends_update_of(cfg, act, observed@)
        } else {
            post == Phase::Idle && sleeps_after(cfg, act, Outcome::Unchanged)
        },
        (Phase::Update { observed }, Event::UpdateFinished { ok }) => {
            post == Phase::Persist { observed, update_ok: ok } && writes_state(
                cfg,
                act,
                observed@,
            )
        },
        (Phase::Persist { update_ok, .. }, Event::WriteFinished { ok }) => {
            post == Phase::Idle && sleeps_after(
                cfg,
                act,
                Outcome::Recorded { update_ok, write_ok: ok },
            )
        },
        _ => false,
    }
}

/// The updater: its configuration, fixed at creation, and the phase of the
/// current cycle.
pub struct Reconciler {
    config: Config,
    phase: Phase,
}

impl Reconciler {
    /// The configuration the updater was created with.
    pub closed spec fn cfg(&self) -> Config {
        self.config
    }

    /// The phase of the current cycle.
    pub closed spec fn phase(&self) -> Phase {
        self.phase
    }

    /// An updater between cycles; the first tick starts a cycle.
    pub fn new(config: Config) -> (r: Reconciler)
        ensures
            r.cfg() == config,
            r.phase() == Phase::Idle,
    {
        Reconciler { config, phase: Phase::Idle }
    }

    /// The configuration the updater was created with.
    pub fn config(&self) -> (r: &Config)
        ensures
            *r == self.cfg(),
    {
        &self.config
    }

    /// The phase of the current cycle.
    pub fn current_phase(&self) -> (r: &Phase)
        ensures
            *r == self.phase(),
    {
        &self.phase
    }

    /// Whether `event` is what the current phase waits for.
    pub fn accepts(&self, event: &Event) -> (r: bool)
        ensures
            r == accepts(self.phase(), *event),
    {
        match (&self.phase, event) {
            (Phase::Idle, Event::Tick) => true,
            (Phase::Discover, Event::Interfaces(_)) => true,
            (Phase::Compare { .. }, Event::StoredState(_)) => true,
            (Phase::Update { .. }, Event::UpdateFinished { .. }) => true,
            (Phase::Persist { .. }, Event::WriteFinished { .. }) => true,
            _ => false,
        }
    }

    /// Takes in what came of the last action and decides the next one.
    pub fn step(&mut self, event: Event) -> (act: Action)
        requires
            accepts(old(self).phase(), event),
        ensures
            final(self).cfg() == old(self).cfg(),
            steps_to(old(self).cfg(), old(self).phase(), event, final(self).phase(), act),
    {
        let secs = self.config.interval_secs;
        let (next, act) = match (&self.phase, event) {
            (Phase::Idle, Event::Tick) => (Phase::Discover, Action::ListInterfaces),
            (Phase::Discover, Event::Interfaces(ifaces)) => {
                match resolve(&ifaces, self.config.interface_prefix.as_str()) {
                    Ok(observed) => (
                        Phase::Compare { observed },
                        Action::ReadState { path: self.config.state_path.clone() },
                    ),
                    Err(e) => (
                        Phase::Idle,
                        Action::Sleep { secs, outcome: Outcome::DiscoveryFailed(e) },
                    ),
                }
            },
            (Phase::Compare { observed }, Event::StoredState(stored)) => {
                let changed = match &stored {
                    Some(s) => !s.eq(observed),
                    None => true,
                };
                if changed {
                    let req = build_update(&self.config, observed.as_str());
                    (Phase::Update { observed: observed.clone() }, Action::SendUpdate(req))
                } else {
                    (Phase::Idle, Action::Sleep { secs, outcome: Outcome::Unchanged })
                }
            },
            (Phase::Update { observed }, Event::UpdateFinished { ok }) => (
                Phase::Persist { observed: observed.clone(), update_ok: ok },
                Action::WriteState {
                    path: self.config.state_path.clone(),
                    content: observed.clone(),
                },
            ),
            (Phase::Persist { update_ok, .. }, Event::WriteFinished { ok }) => (
                Phase::Idle,
                Action::Sleep { secs, outcome: Outcome::Recorded { update_ok: *update_ok, write_ok: ok } },
            ),
            // Ruled out by the precondition: every phase is paired with its event above.
            _ => (Phase::Idle, Action::ListInterfaces),
        };
        self.phase = next;
        act
    }
}

/// A cycle that finds the stored address equal to the one it resolves sends
/// no update, writes nothing, and ends reporting no change.
pub proof fn lemma_unchanged_sends_nothing(
    cfg: Config,
    ifaces: Vec<Interface>,
    stored: String,
    p1: Phase,
    p2: Phase,
    p3: Phase,
    a1: Action,
    a2: Action,
    a3: Action,
)
    requires
        resolve_spec(ifaces@, cfg.interface_prefix@) == Ok::<Seq<char>, ResolveError>(stored@),
        steps_to(cfg, Phase::Idle, Event::Tick, p1, a1),
        steps_to(cfg, p1, Event::Interfaces(ifaces), p2, a2),
        steps_to(cfg, p2, Event::StoredState(Some(stored)), p3, a3),
    ensures
        a1 == Action::ListInterfaces,
        a2 is ReadState,
        sleeps_after(cfg, a3, Outcome::Unchanged),
        p3 == Phase::Idle,
{
}

/// When two consecutive cycles resolve the same address, the second sends no
/// update: the first one, having found a change, wrote that address, and the
/// second reads it back.
pub proof fn lemma_same_address_not_republished(
    cfg: Config,
    first: Vec<Interface>,
    second: Vec<Interface>,
    stored: Option<String>,
    update_ok: bool,
    read_back: String,
    p: Seq<Phase>,
    a: Seq<Action>,
)
    requires
        p.len() == 8,
        a.len() == 8,
        resolve_spec(first@, cfg.interface_prefix@) is Ok,
        resolve_spec(second@, cfg.interface_prefix@) == resolve_spec(first@, cfg.interface_prefix@),
        steps_to(cfg, Phase::Idle, Event::Tick, p[0], a[0]),
        steps_to(cfg, p[0], Event::Interfaces(first), p[1], a[1]),
        steps_to(cfg, p[1], Event::StoredState(stored), p[2], a[2]),
        steps_to(cfg, p[2], (Event::UpdateFinished { ok: update_ok }), p[3], a[3]),
        steps_to(cfg, p[3], (Event::WriteFinished { ok: true }), p[4], a[4]),
        writes_state(cfg, a[3], read_back@),
        steps_to(cfg, p[4], Event::Tick, p[5], a[5]),
        steps_to(cfg, p[5], Event::Interfaces(second), p[6], a[6]),
        steps_to(cfg, p[6], Event::StoredState(Some(read_back)), p[7], a[7]),
    ensures
        !(a[5] is SendUpdate),
        !(a[6] is SendUpdate),
        sleeps_after(cfg, a[7], Outcome::Unchanged),
        p[7] == Phase::Idle,
{
}

/// With no stored state, a cycle that resolves an address, whichever it is,
/// sends exactly one update, of that address, and writes it to the state file
/// exactly once, whatever comes of the update.
pub proof fn lemma_first_run_publishes(
    cfg: Config,
    ifaces: Vec<Interface>,
    update_ok: bool,
    write_ok: bool,
    p: Seq<Phase>,
    a: Seq<Action>,
)
    requires
        p.len() == 5,
        a.len() == 5,
        resolve_spec(ifaces@, cfg.interface_prefix@) is Ok,
        steps_to(cfg, Phase::Idle, Event::Tick, p[0], a[0]),
        steps_to(cfg, p[0], Event::Interfaces(ifaces), p[1], a[1]),
        steps_to(cfg, p[1], Event::StoredState(None), p[2], a[2]),
        steps_to(cfg, p[2], (Event::UpdateFinished { ok: update_ok }), p[3], a[3]),
        steps_to(cfg, p[3], (Event::WriteFinished { ok: write_ok }), p[4], a[4]),
    ensures
        ({
            let observed = resolve_spec(ifaces@, cfg.interface_prefix@)->Ok_0;
            &&& a[0] == Action::ListInterfaces
            &&& a[1] is ReadState
            &&& sends_update_of(cfg, a[2], observed)
            &&& writes_state(cfg, a[3], observed)
            &&& sleeps_after(cfg, a[4], (Outcome::Recorded { update_ok, write_ok }))
            &&& p[4] == Phase::Idle
        }),
{
}

/// Once a change is detected, the update is sent, and when the attempt
/// finishes, successful or not, the new address is written to the state file.
pub proof fn lemma_persist_after_attempt(
    cfg: Config,
    observed: String,
    stored: Option<String>,
    ok: bool,
    p1: Phase,
    p2: Phase,
    a1: Action,
    a2: Action,
)
    requires
        is_change(stored, observed@),
        steps_to(cfg, (Phase::Compare { observed }), Event::StoredState(stored), p1, a1),
        steps_to(cfg, p1, (Event::UpdateFinished { ok }), p2, a2),
    ensures
        sends_update_of(cfg, a1, observed@),
        writes_state(cfg, a2, observed@),
        p2 == (Phase::Persist { observed, update_ok: ok }),
{
}

/// When no interface name starts with the configured prefix, the cycle ends
/// reporting so and sleeps, and the next tick starts a new cycle.
pub proof fn lemma_discovery_failure_continues(
    cfg: Config,
    ifaces: Vec<Interface>,
    post: Phase,
    act: Action,
)
    requires
        forall|i: int|
            0 <= i < ifaces@.len() ==> !has_prefix(#[trigger] ifaces@[i].name@, cfg.interface_prefix@),
        steps_to(cfg, Phase::Discover, Event::Interfaces(ifaces), post, act),
    ensures
        sleeps_after(cfg, act, Outcome::DiscoveryFailed(ResolveError::NoMatchingInterface)),
        post == Phase::Idle,
        accepts(post, Event::Tick),
{
}

} // verus!
