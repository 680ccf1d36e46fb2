//! The live-development supervisor as a state machine: each event that the
//! running loop observes gives the next state and the actions to perform.
use vstd::prelude::*;

verus! {

#[derive(Clone, Copy, Debug, PartialEq, Eq, Structural)]
pub enum Phase {
    /// Not started yet.
    Idle,
    /// Building every image.
    Building,
    /// The build failed; waiting for a file change or an interrupt.
    WaitingForFix,
    /// The images run.
    Running,
    /// Terminating the images; `restart` says whether a rebuild follows.
    Draining { restart: bool },
    /// The loop has ended.
    Stopped,
}

#[derive(Clone, Copy, Debug, PartialEq, Eq, Structural)]
pub enum Event {
    Start,
    BuildSucceeded,
    BuildFailed,
    /// A change to a file that the ignore rules do not exclude.
    FilesChanged,
    Interrupted,
    /// The images did not all exit within the join timeout.
    JoinTimedOut,
    /// Every image task has exited.
    Joined,
    /// The polling tick.
    Tick,
}

#[derive(Clone, Copy, Debug, PartialEq, Eq, Structural)]
pub enum Action {
    /// Remove every component's container.
    Clean,
    CreateNetwork,
    /// Build every image, then the manifests.
    Build,
    ReportBuildError,
    /// Launch the images in launch order.
    LaunchAll,
    BroadcastTerminate,
    JoinAll,
    /// Kill every component's container.
    KillAll,
    DeleteNetwork,
    /// Read the images' status reports.
    DrainStatuses,
}

#[derive(Clone, Copy, Debug, PartialEq, Eq, Structural)]
pub struct Supervisor {
    pub phase: Phase,
    /// The bridge network has been created and not deleted since.
    pub network_created: bool,
    /// Images have been launched and their containers not cleaned since.
    pub containers_up: bool,
}

/// The next state and the actions, for one event.
pub open spec fn step_spec(s: Supervisor, e: Event) -> (Supervisor, Seq<Action>) {
    match (s.phase, e) {
        (Phase::Idle, Event::Start) => (
            Supervisor { phase: Phase::Building, network_created: true, containers_up: false },
            seq![Action::Clean, Action::CreateNetwork, Action::Build],
        ),
        (Phase::Building, Event::BuildSucceeded) => (
            Supervisor { phase: Phase::Running, containers_up: true, ..s },
            seq![Action::LaunchAll],
        ),
        (Phase::Building, Event::BuildFailed) => (
            Supervisor { phase: Phase::WaitingForFix, ..s },
            seq![Action::ReportBuildError],
        ),
        (Phase::WaitingForFix, Event::FilesChanged) => (
            Supervisor { phase: Phase::Building, ..s },
            seq![Action::BroadcastTerminate, Action::Build],
        ),
        (Phase::WaitingForFix, Event::Interrupted) => (
            Supervisor { phase: Phase::Stopped, network_created: false, ..s },
            seq![Action::BroadcastTerminate, Action::DeleteNetwork],
        ),
        (Phase::Running, Event::FilesChanged) => (
            Supervisor { phase: Phase::Draining { restart: true }, ..s },
            seq![Action::BroadcastTerminate, Action::JoinAll],
        ),
        (Phase::Running, Event::Interrupted) => (
            Supervisor { phase: Phase::Draining { restart: false }, ..s },
            seq![Action::BroadcastTerminate, Action::JoinAll],
        ),
        (Phase::Running, Event::Tick) => (s, seq![Action::DrainStatuses]),
        (Phase::Draining { .. }, Event::JoinTimedOut) => (
            s,
            seq![Action::BroadcastTerminate, Action::KillAll, Action::JoinAll],
        ),
        (Phase::Draining { restart }, Event::Joined) => if restart {
            (
                Supervisor { phase: Phase::Building, containers_up: false, ..s },
                seq![Action::Clean, Action::Build],
            )
        } else {
            (
                Supervisor { phase: Phase::Stopped, containers_up: false, network_created: false },
                seq![Action::Clean, Action::DeleteNetwork],
            )
        },
        _ => (s, Seq::empty()),
    }
}

impl Supervisor {
    pub fn new() -> (r: Supervisor)
        ensures
            r == (Supervisor { phase: Phase::Idle, network_created: false, containers_up: false }),
    {
        Supervisor { phase: Phase::Idle, network_created: false, containers_up: false }
    }

    /// The next state and the actions to perform, in order.
    pub fn step(&self, e: Event) -> (r: (Supervisor, Vec<Action>))
        ensures
            r.0 == step_spec(*self, e).0,
            r.1@ == step_spec(*self, e).1,
    {
        let s = *self;
        let mut acts: Vec<Action> = Vec::new();
        let next = match (s.phase, e) {
            (Phase::Idle, Event::Start) => {
                acts.push(Action::Clean);
                acts.push(Action::CreateNetwork);
                acts.push(Action::Build);
                Supervisor { phase: Phase::Building, network_created: true, containers_up: false }
            },
            (Phase::Building, Event::BuildSucceeded) => {
                acts.push(Action::LaunchAll);
                Supervisor { phase: Phase::Running, containers_up: true, ..s }
            },
            (Phase::Building, Event::BuildFailed) => {
                acts.push(Action::ReportBuildError);
                Supervisor { phase: Phase::WaitingForFix, ..s }
            },
            (Phase::WaitingForFix, Event::FilesChanged) => {
                acts.push(Action::BroadcastTerminate);
                acts.push(Action::Build);
                Supervisor { phase: Phase::Building, ..s }
            },
            (Phase::WaitingForFix, Event::Interrupted) => {
                acts.push(Action::BroadcastTerminate);
                acts.push(Action::DeleteNetwork);
                Supervisor { phase: Phase::Stopped, network_created: false, ..s }
            },
            (Phase::Running, Event::FilesChanged) => {
                acts.push(Action::BroadcastTerminate);
                acts.push(Action::JoinAll);
                Supervisor { phase: Phase::Draining { restart: true }, ..s }
            },
            (Phase::Running, Event::Interrupted) => {
                acts.push(Action::BroadcastTerminate);
                acts.push(Action::JoinAll);
                Supervisor { phase: Phase::Draining { restart: false }, ..s }
            },
            (Phase::Running, Event::Tick) => {
                acts.push(Action::DrainStatuses);
                s
            },
            (Phase::Draining { .. }, Event::JoinTimedOut) => {
                acts.push(Action::BroadcastTerminate);
                acts.push(Action::KillAll);
                acts.push(Action::JoinAll);
                s
            },
            (Phase::Draining { restart }, Event::Joined) => {
                acts.push(Action::Clean);
                if restart {
                    acts.push(Action::Build);
                    Supervisor { phase: Phase::Building, containers_up: false, ..s }
                } else {
                    acts.push(Action::DeleteNetwork);
                    Supervisor { phase: Phase::Stopped, containers_up: false, network_created: false }
                }
            },
            _ => s,
        };
        assert(acts@ =~= step_spec(s, e).1);
        (next, acts)
    }

    pub fn is_stopped(&self) -> (r: bool)
        ensures
            r == (self.phase is Stopped),
    {
        match self.phase {
            Phase::Stopped => true,
            _ => false,
        }
    }
}

/// The state after a sequence of events, and every action in order.
pub open spec fn run(s: Supervisor, events: Seq<Event>) -> (Supervisor, Seq<Action>)
    decreases events.len(),
{
    if events.len() == 0 {
        (s, Seq::empty())
    } else {
        let (t, log) = run(s, events.drop_last());
        let (u, acts) = step_spec(t, events.last());
        (u, log + acts)
    }
}

/// The network is up after `log`: its last network action created it.
pub open spec fn network_up(log: Seq<Action>) -> bool
    decreases log.len(),
{
    if log.len() == 0 {
        false
    } else if log.last() == Action::CreateNetwork {
        true
    } else if log.last() == Action::DeleteNetwork {
        false
    } else {
        network_up(log.drop_last())
    }
}

/// Containers may remain after `log`: images were launched and not cleaned since.
pub open spec fn containers_remain(log: Seq<Action>) -> bool
    decreases log.len(),
{
    if log.len() == 0 {
        false
    } else if log.last() == Action::LaunchAll {
        true
    } else if log.last() == Action::Clean {
        false
    } else {
        containers_remain(log.drop_last())
    }
}

/// Every launch in `log` happens with the network up and no container left
/// from an earlier launch.
pub open spec fn launches_are_clean(log: Seq<Action>) -> bool {
    forall|i: int|
        0 <= i < log.len() && #[trigger] log[i] == Action::LaunchAll ==> network_up(log.take(i))
            && !containers_remain(log.take(i))
}

pub open spec fn tracks(s: Supervisor, log: Seq<Action>) -> bool {
    &&& s.network_created == network_up(log)
    &&& s.containers_up == containers_remain(log)
    &&& (s.phase is Building || s.phase is WaitingForFix || s.phase is Running
        || s.phase is Draining) ==> s.network_created
    &&& (s.phase is Building || s.phase is WaitingForFix) ==> !s.containers_up
    &&& s.phase is Stopped ==> !s.network_created && !s.containers_up
    &&& s.phase is Idle ==> log.len() == 0
}

proof fn lemma_log_push(log: Seq<Action>, acts: Seq<Action>, k: int)
    requires
        0 <= k <= acts.len(),
    ensures
        (log + acts).take(log.len() + k) == log + acts.take(k),
{
    assert((log + acts).take(log.len() + k) =~= log + acts.take(k));
}

proof fn lemma_step_tracks(s: Supervisor, log: Seq<Action>, e: Event)
    requires
        tracks(s, log),
        launches_are_clean(log),
    ensures
        tracks(step_spec(s, e).0, log + step_spec(s, e).1),
        launches_are_clean(log + step_spec(s, e).1),
{
    let (t, acts) = step_spec(s, e);
    let full = log + acts;
    assert forall|k: int| 0 <= k <= acts.len() implies #[trigger] full.take(log.len() + k) == log
        + acts.take(k) by {
        lemma_log_push(log, acts, k);
    }
    // Reduce the log's summaries to those of `log`, one action at a time.
    assert forall|k: int|
        0 <= k <= acts.len() && (forall|j: int|
            0 <= j < k ==> acts[j] != Action::CreateNetwork && acts[j] != Action::DeleteNetwork)
        implies #[trigger] network_up(log + acts.take(k)) == network_up(log) by {
        lemma_network_up_prefix(log, acts, k);
    }
    assert forall|k: int|
        0 <= k <= acts.len() && (forall|j: int|
            0 <= j < k ==> acts[j] != Action::LaunchAll && acts[j] != Action::Clean) implies
        #[trigger] containers_remain(log + acts.take(k)) == containers_remain(log) by {
        lemma_containers_prefix(log, acts, k);
    }
    assert(acts.take(acts.len() as int) =~= acts);
    assert forall|i: int| 0 <= i < full.len() && #[trigger] full[i] == Action::LaunchAll implies
        network_up(full.take(i)) && !containers_remain(full.take(i)) by {
        if i < log.len() {
            assert(full.take(i) =~= log.take(i));
            assert(log[i] == full[i]);
        } else {
            let k = i - log.len();
            assert(acts[k] == Action::LaunchAll);
            assert(acts.take(0) =~= Seq::<Action>::empty());
            assert(log + acts.take(0) =~= log);
        }
    }
    let a1 = acts.drop_last();
    let a2 = a1.drop_last();
    let a3 = a2.drop_last();
    if acts.len() == 0 {
        assert(full =~= log);
    } else {
        assert(full.drop_last() =~= log + a1);
        if a1.len() == 0 {
            assert(log + a1 =~= log);
        } else {
            assert((log + a1).drop_last() =~= log + a2);
            if a2.len() == 0 {
                assert(log + a2 =~= log);
            } else {
                assert((log + a2).drop_last() =~= log + a3);
                assert(a3.len() == 0);
                assert(log + a3 =~= log);
            }
        }
    }
    reveal_with_fuel(network_up, 4);
    reveal_with_fuel(containers_remain, 4);
}

proof fn lemma_network_up_prefix(log: Seq<Action>, acts: Seq<Action>, k: int)
    requires
        0 <= k <= acts.len(),
        forall|j: int|
            0 <= j < k ==> acts[j] != Action::CreateNetwork && acts[j] != Action::DeleteNetwork,
    ensures
        network_up(log + acts.take(k)) == network_up(log),
    decreases k,
{
    if k == 0 {
        assert(log + acts.take(0) =~= log);
    } else {
        assert((log + acts.take(k)).drop_last() =~= log + acts.take(k - 1));
        lemma_network_up_prefix(log, acts, k - 1);
    }
}

proof fn lemma_containers_prefix(log: Seq<Action>, acts: Seq<Action>, k: int)
    requires
        0 <= k <= acts.len(),
        forall|j: int| 0 <= j < k ==> acts[j] != Action::LaunchAll && acts[j] != Action::Clean,
    ensures
        containers_remain(log + acts.take(k)) == containers_remain(log),
    decreases k,
{
    if k == 0 {
        assert(log + acts.take(0) =~= log);
    } else {
        assert((log + acts.take(k)).drop_last() =~= log + acts.take(k - 1));
        lemma_containers_prefix(log, acts, k - 1);
    }
}

/// Over any sequence of events from a fresh supervisor: every launch comes
/// after the network was created and before it was deleted, with every
/// container of an earlier launch cleaned; once stopped, the network has
/// been deleted and no container remains.
pub proof fn launch_cycle_invariants(events: Seq<Event>)
    ensures
        launches_are_clean(run(Supervisor::new_spec(), events).1),
        run(Supervisor::new_spec(), events).0.phase is Stopped ==> !network_up(
            run(Supervisor::new_spec(), events).1,
        ) && !containers_remain(run(Supervisor::new_spec(), events).1),
    decreases events.len(),
{
    lemma_run_tracks(events);
}

proof fn lemma_run_tracks(events: Seq<Event>)
    ensures
        tracks(run(Supervisor::new_spec(), events).0, run(Supervisor::new_spec(), events).1),
        launches_are_clean(run(Supervisor::new_spec(), events).1),
    decreases events.len(),
{
    if events.len() > 0 {
        lemma_run_tracks(events.drop_last());
        let (t, log) = run(Supervisor::new_spec(), events.drop_last());
        lemma_step_tracks(t, log, events.last());
    }
}

impl Supervisor {
    pub open spec fn new_spec() -> Supervisor {
        Supervisor { phase: Phase::Idle, network_created: false, containers_up: false }
    }
}

} // verus!
