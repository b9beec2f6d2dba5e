//! The life of a running node, as a state machine.
//!
//! A node starts its sync actor, then its network actor, then (where it
//! serves REST) its REST server, then saves its own entry in the nodes
//! document; it reports that it is ready, or the error that
//! stopped it, exactly once. Once running, it hands every command on to the
//! actor that serves it, syncs with its peers on every tick of the sync timer
//! (where a sync interval is set), and stops on `Shutdown`.
//!
//! [`Atman::step`] takes what happened ([`RunEvent`]) and says what to do
//! next ([`RunAction`]); the caller performs the action and reports back.
use vstd::prelude::*;

use crate::command::{dispatch_of, handle_command, Command, Dispatch};
use crate::error::Error;
use crate::{protocol, rest, sync};

verus! {

/// Where a node is in its life.
#[derive(PartialEq, Eq, Structural, Clone, Copy, Debug)]
pub enum RunPhase {
    /// Waiting for the sync actor to start.
    StartingSync,
    /// Waiting for the network actor to start.
    StartingNetwork,
    /// Waiting for the REST server to start.
    StartingRest,
    /// Waiting for the local node's entry to be saved.
    SavingLocalNode,
    /// Serving commands and ticks.
    Running,
    /// Stopped.
    Stopped,
}

/// What happened since the last action.
pub enum RunEvent {
    /// The sync actor started, or failed to.
    SyncActorStarted(Result<(), sync::Error>),
    /// The network actor started, or failed to.
    NetworkActorStarted(Result<(), protocol::Error>),
    /// The REST server started, or failed to.
    RestActorStarted(Result<(), rest::Error>),
    /// The local node's entry was saved, or saving it failed.
    LocalNodeSaved(Result<(), Error>),
    /// The sync timer ticked.
    TimerTicked,
    /// A command came in.
    CommandReceived(Command),
}

/// What to do next.
pub enum RunAction {
    /// Start the network actor.
    StartNetworkActor,
    /// Start the REST server.
    StartRestActor,
    /// Save the local node's entry in the nodes document.
    SaveLocalNode,
    /// Report that the node is ready.
    ReportReady,
    /// Report the error that stopped the start; the node is stopped.
    ReportFailure(Error),
    /// Sync every document with every other node.
    SyncWithPeers,
    /// Hand a command on.
    Dispatch(Dispatch),
    /// Stop.
    Stop,
}

/// Whether `phase` waits for the event `e`; ticks come only where a sync
/// interval is set.
pub open spec fn run_accepts(phase: RunPhase, has_timer: bool, e: &RunEvent) -> bool {
    match phase {
        RunPhase::StartingSync => e is SyncActorStarted,
        RunPhase::StartingNetwork => e is NetworkActorStarted,
        RunPhase::StartingRest => e is RestActorStarted,
        RunPhase::SavingLocalNode => e is LocalNodeSaved,
        RunPhase::Running => e is CommandReceived || (e is TimerTicked && has_timer),
        RunPhase::Stopped => false,
    }
}

/// What one step does: from phase `p` of a node that serves REST where
/// `with_rest` holds, the event `e` leads to phase `q` and the action `a`.
pub open spec fn run_transition(with_rest: bool, p: RunPhase, e: RunEvent, q: RunPhase, a: RunAction) -> bool {
    match e {
        RunEvent::SyncActorStarted(Ok(())) => q == RunPhase::StartingNetwork && a is StartNetworkActor,
        RunEvent::SyncActorStarted(Err(x)) => q == RunPhase::Stopped && a == RunAction::ReportFailure(
            Error::Sync(x),
        ),
        RunEvent::NetworkActorStarted(Ok(())) => if with_rest {
            q == RunPhase::StartingRest && a is StartRestActor
        } else {
            q == RunPhase::SavingLocalNode && a is SaveLocalNode
        },
        RunEvent::NetworkActorStarted(Err(x)) => q == RunPhase::Stopped && a == RunAction::ReportFailure(
            Error::Network(x),
        ),
        RunEvent::RestActorStarted(Ok(())) => q == RunPhase::SavingLocalNode && a is SaveLocalNode,
        RunEvent::RestActorStarted(Err(x)) => q == RunPhase::Stopped && a == RunAction::ReportFailure(
            Error::Http(x),
        ),
        RunEvent::LocalNodeSaved(Ok(())) => q == RunPhase::Running && a is ReportReady,
        RunEvent::LocalNodeSaved(Err(x)) => q == RunPhase::Stopped && a == RunAction::ReportFailure(x),
        RunEvent::TimerTicked => q == RunPhase::Running && a is SyncWithPeers,
        RunEvent::CommandReceived(c) => if c is Shutdown {
            q == RunPhase::Stopped && a is Stop
        } else {
            q == RunPhase::Running && a == RunAction::Dispatch(dispatch_of(c))
        },
    }
}

/// A running node's state: where it is, its sync interval in seconds, and
/// whether it serves REST.
pub struct Atman {
    phase: RunPhase,
    sync_interval: Option<u64>,
    with_rest: bool,
}

impl Atman {
    /// Where the node is.
    pub closed spec fn spec_phase(&self) -> RunPhase {
        self.phase
    }

    /// The period of the periodic sync in seconds, if any.
    pub closed spec fn spec_sync_interval(&self) -> Option<u64> {
        self.sync_interval
    }

    /// Whether the node serves REST.
    pub closed spec fn spec_with_rest(&self) -> bool {
        self.with_rest
    }

    /// A node about to start, with the given sync interval, serving REST
    /// where `with_rest` holds.
    pub fn new(sync_interval: Option<u64>, with_rest: bool) -> (res: Atman)
        ensures
            res.spec_phase() == RunPhase::StartingSync,
            res.spec_sync_interval() == sync_interval,
            res.spec_with_rest() == with_rest,
    {
        Atman { phase: RunPhase::StartingSync, sync_interval, with_rest }
    }

    /// Where the node is.
    pub fn phase(&self) -> (res: RunPhase)
        ensures
            res == self.spec_phase(),
    {
        self.phase
    }

    /// The period of the periodic sync in seconds, if any.
    pub fn sync_interval(&self) -> (res: Option<u64>)
        ensures
            res == self.spec_sync_interval(),
    {
        self.sync_interval
    }

    /// Whether the node waits for `event` now.
    pub fn accepts(&self, event: &RunEvent) -> (res: bool)
        ensures
            res == run_accepts(self.spec_phase(), self.spec_sync_interval() is Some, event),
    {
        match self.phase {
            RunPhase::StartingSync => matches!(event, RunEvent::SyncActorStarted(_)),
            RunPhase::StartingNetwork => matches!(event, RunEvent::NetworkActorStarted(_)),
            RunPhase::StartingRest => matches!(event, RunEvent::RestActorStarted(_)),
            RunPhase::SavingLocalNode => matches!(event, RunEvent::LocalNodeSaved(_)),
            RunPhase::Running => match event {
                RunEvent::CommandReceived(_) => true,
                RunEvent::TimerTicked => self.sync_interval.is_some(),
                _ => false,
            },
            RunPhase::Stopped => false,
        }
    }

    /// Takes what happened and says what to do next.
    pub fn step(&mut self, event: RunEvent) -> (action: RunAction)
        requires
            run_accepts(old(self).spec_phase(), old(self).spec_sync_interval() is Some, &event),
        ensures
            run_transition(old(self).spec_with_rest(), old(self).spec_phase(), event, final(self).spec_phase(), action),
            final(self).spec_sync_interval() == old(self).spec_sync_interval(),
            final(self).spec_with_rest() == old(self).spec_with_rest(),
    {
        match event {
            RunEvent::SyncActorStarted(Ok(())) => {
                self.phase = RunPhase::StartingNetwork;
                RunAction::StartNetworkActor
            },
            RunEvent::SyncActorStarted(Err(x)) => {
                self.phase = RunPhase::Stopped;
                RunAction::ReportFailure(Error::Sync(x))
            },
            RunEvent::NetworkActorStarted(Ok(())) => {
                if self.with_rest {
                    self.phase = RunPhase::StartingRest;
                    RunAction::StartRestActor
                } else {
                    self.phase = RunPhase::SavingLocalNode;
                    RunAction::SaveLocalNode
                }
            },
            RunEvent::NetworkActorStarted(Err(x)) => {
                self.phase = RunPhase::Stopped;
                RunAction::ReportFailure(Error::Network(x))
            },
            RunEvent::RestActorStarted(Ok(())) => {
                self.phase = RunPhase::SavingLocalNode;
                RunAction::SaveLocalNode
            },
            RunEvent::RestActorStarted(Err(x)) => {
                self.phase = RunPhase::Stopped;
                RunAction::ReportFailure(Error::Http(x))
            },
            RunEvent::LocalNodeSaved(Ok(())) => {
                self.phase = RunPhase::Running;
                RunAction::ReportReady
            },
            RunEvent::LocalNodeSaved(Err(x)) => {
                self.phase = RunPhase::Stopped;
                RunAction::ReportFailure(x)
            },
            RunEvent::TimerTicked => RunAction::SyncWithPeers,
            RunEvent::CommandReceived(c) => {
                match handle_command(c) {
                    Dispatch::Shutdown => {
                        self.phase = RunPhase::Stopped;
                        RunAction::Stop
                    },
                    d => RunAction::Dispatch(d),
                }
            },
        }
    }
}

/// How far a phase is in a node's life.
pub open spec fn rank(p: RunPhase) -> int {
    match p {
        RunPhase::StartingSync => 0,
        RunPhase::StartingNetwork => 1,
        RunPhase::StartingRest => 2,
        RunPhase::SavingLocalNode => 3,
        RunPhase::Running => 4,
        RunPhase::Stopped => 5,
    }
}

/// The action reports how the start went.
pub open spec fn is_report(a: RunAction) -> bool {
    a is ReportReady || a is ReportFailure
}

/// `phases`, `events` and `actions` are a run of a node from its start:
/// each event was one that its phase waits for, and led to the next phase
/// and the action. The node has a sync timer where `has_timer` holds, and
/// serves REST where `with_rest` holds.
pub open spec fn is_run(
    phases: Seq<RunPhase>,
    events: Seq<RunEvent>,
    actions: Seq<RunAction>,
    has_timer: bool,
    with_rest: bool,
) -> bool {
    &&& phases.len() == events.len() + 1
    &&& actions.len() == events.len()
    &&& phases[0] == RunPhase::StartingSync
    &&& forall|i: int|
        0 <= i < events.len() ==> run_accepts(#[trigger] phases[i], has_timer, &events[i])
            && run_transition(with_rest, phases[i], events[i], phases[i + 1], actions[i])
}

/// A stopped node waits for nothing.
pub proof fn lemma_stopped_is_final(has_timer: bool, e: RunEvent)
    ensures
        !run_accepts(RunPhase::Stopped, has_timer, &e),
{
}

/// No step goes back, and a report leaves the start behind.
proof fn lemma_step_rank(with_rest: bool, p: RunPhase, has_timer: bool, e: RunEvent, q: RunPhase, a: RunAction)
    requires
        run_accepts(p, has_timer, &e),
        run_transition(with_rest, p, e, q, a),
    ensures
        rank(p) <= rank(q),
        is_report(a) ==> rank(p) <= 3 && rank(q) >= 4,
        rank(p) <= 3 && rank(q) >= 4 ==> is_report(a),
        q == RunPhase::Running && p != RunPhase::Running ==> a is ReportReady,
{
}

/// Along a run, phases never go back.
proof fn lemma_rank_monotone(
    phases: Seq<RunPhase>,
    events: Seq<RunEvent>,
    actions: Seq<RunAction>,
    has_timer: bool,
    with_rest: bool,
    i: int,
    j: int,
)
    requires
        is_run(phases, events, actions, has_timer, with_rest),
        0 <= i <= j < phases.len(),
    ensures
        rank(phases[i]) <= rank(phases[j]),
    decreases j - i,
{
    if i < j {
        lemma_rank_monotone(phases, events, actions, has_timer, with_rest, i, j - 1);
        assert(run_accepts(phases[j - 1], has_timer, &events[j - 1]));
        lemma_step_rank(with_rest, phases[j - 1], has_timer, events[j - 1], phases[j], actions[j - 1]);
    }
}

/// A node reports how its start went at most once.
pub proof fn lemma_one_report(
    phases: Seq<RunPhase>,
    events: Seq<RunEvent>,
    actions: Seq<RunAction>,
    has_timer: bool,
    with_rest: bool,
    i: int,
    j: int,
)
    requires
        is_run(phases, events, actions, has_timer, with_rest),
        0 <= i < j < actions.len(),
    ensures
        !(is_report(actions[i]) && is_report(actions[j])),
{
    if is_report(actions[i]) {
        assert(run_accepts(phases[i], has_timer, &events[i]));
        lemma_step_rank(with_rest, phases[i], has_timer, events[i], phases[i + 1], actions[i]);
        lemma_rank_monotone(phases, events, actions, has_timer, with_rest, i + 1, j);
        assert(run_accepts(phases[j], has_timer, &events[j]));
        lemma_step_rank(with_rest, phases[j], has_timer, events[j], phases[j + 1], actions[j]);
    }
}

/// A node that is running has reported that it is ready.
proof fn lemma_running_was_reported(
    phases: Seq<RunPhase>,
    events: Seq<RunEvent>,
    actions: Seq<RunAction>,
    has_timer: bool,
    with_rest: bool,
    j: int,
)
    requires
        is_run(phases, events, actions, has_timer, with_rest),
        0 <= j < phases.len(),
        phases[j] == RunPhase::Running,
    ensures
        exists|i: int| 0 <= i < j && (#[trigger] actions[i]) is ReportReady,
    decreases j,
{
    assert(run_accepts(phases[j - 1], has_timer, &events[j - 1]));
    lemma_step_rank(with_rest, phases[j - 1], has_timer, events[j - 1], phases[j], actions[j - 1]);
    if phases[j - 1] == RunPhase::Running {
        lemma_running_was_reported(phases, events, actions, has_timer, with_rest, j - 1);
    } else {
        assert(actions[j - 1] is ReportReady);
    }
}

/// A node hands commands on and syncs with its peers only after it has
/// reported that it is ready.
pub proof fn lemma_serves_after_ready(
    phases: Seq<RunPhase>,
    events: Seq<RunEvent>,
    actions: Seq<RunAction>,
    has_timer: bool,
    with_rest: bool,
    j: int,
)
    requires
        is_run(phases, events, actions, has_timer, with_rest),
        0 <= j < actions.len(),
        actions[j] is Dispatch || actions[j] is SyncWithPeers,
    ensures
        exists|i: int| 0 <= i < j && (#[trigger] actions[i]) is ReportReady,
{
    assert(run_accepts(phases[j], has_timer, &events[j]));
    assert(phases[j] == RunPhase::Running);
    lemma_running_was_reported(phases, events, actions, has_timer, with_rest, j);
}

/// A running node stops exactly on `Shutdown`, and hands every other command
/// on as it is.
pub proof fn lemma_stops_on_shutdown(with_rest: bool, c: Command, q: RunPhase, a: RunAction)
    requires
        run_transition(with_rest, RunPhase::Running, RunEvent::CommandReceived(c), q, a),
    ensures
        q == RunPhase::Stopped <==> c is Shutdown,
        !(c is Shutdown) ==> a == RunAction::Dispatch(dispatch_of(c)),
{
}

/// Along a run, the commands are handed on one by one in the order in which
/// they came, each as it is, and a `Shutdown` stops the node: it is the last
/// event of the run, so no later command is handled.
pub proof fn lemma_commands_in_order(
    phases: Seq<RunPhase>,
    events: Seq<RunEvent>,
    actions: Seq<RunAction>,
    has_timer: bool,
    with_rest: bool,
    i: int,
)
    requires
        is_run(phases, events, actions, has_timer, with_rest),
        0 <= i < events.len(),
        events[i] is CommandReceived,
    ensures
        events[i] matches RunEvent::CommandReceived(c) && (if c is Shutdown {
            actions[i] is Stop && i == events.len() - 1
        } else {
            actions[i] == RunAction::Dispatch(dispatch_of(c))
        }),
{
    assert(run_accepts(phases[i], has_timer, &events[i]));
    assert(run_transition(with_rest, phases[i], events[i], phases[i + 1], actions[i]));
    if let RunEvent::CommandReceived(c) = events[i] {
        if c is Shutdown && i + 1 < events.len() {
            assert(phases[i + 1] == RunPhase::Stopped);
            assert(run_accepts(phases[i + 1], has_timer, &events[i + 1]));
        }
    }
}

/// A node without a sync interval never syncs with its peers on its own.
pub proof fn lemma_no_sync_without_interval(
    phases: Seq<RunPhase>,
    events: Seq<RunEvent>,
    actions: Seq<RunAction>,
    with_rest: bool,
    i: int,
)
    requires
        is_run(phases, events, actions, false, with_rest),
        0 <= i < actions.len(),
    ensures
        !(actions[i] is SyncWithPeers),
{
    assert(run_accepts(phases[i], false, &events[i]));
}

} // verus!
