//! The lifecycle orchestrator: a state machine that drives a generated
//! topology through the external collaborator, phase by phase, in the fixed
//! order network creation, connect, fund, open channels, add activity, add
//! events, finalize, start, run, stop.
//!
//! The machine itself performs no call. Its driver asks [`Orchestrator::next_action`]
//! what to do, performs that one action against the collaborator, and feeds
//! the outcome back through [`Orchestrator::on_event`]. Any failing call
//! during setup moves the machine to `Failed`, from which the only action
//! ever requested is a single shutdown with no task set — the fail-fast
//! discipline.

use crate::topology::{ActivitySpec, ChannelSpec, Connection, EventSpec, Funding, Topology};
use vstd::prelude::*;

verus! {

/// The lifecycle states. A phase name marks the last completed milestone;
/// while instructions of the following phase are still being applied, the
/// machine stays in that state and counts them with its cursor.
#[derive(Clone, Copy, Debug, PartialEq, Eq, Structural)]
pub enum Phase {
    Idle,
    NetworkCreated,
    PeersConnected,
    Funded,
    ChannelsOpened,
    ActivityAdded,
    EventsAdded,
    Finalized,
    Running,
    Stopping,
    Stopped,
    Failed,
}

/// The one action the driver must perform next on the machine's behalf.
#[derive(Clone, Copy, Debug, PartialEq, Eq, Structural)]
pub enum SimAction {
    /// Ask the collaborator to create the emulated network and launch its
    /// node processes.
    CreateNetwork,
    /// Apply one peer-connect instruction.
    Connect { conn: Connection },
    /// Apply one funding instruction.
    Fund { fund: Funding },
    /// Apply one channel-open instruction.
    OpenChannel { chan: ChannelSpec },
    /// Register one recurring payment activity.
    AddActivity { activity: ActivitySpec },
    /// Register one scripted event.
    AddEvent { event: EventSpec },
    /// Pause until the operator acknowledges or an interrupt asks to stop.
    AwaitOperator,
    /// Ask the collaborator to finalize the simulation.
    Finalize,
    /// Ask the collaborator to start the simulation, producing the task set.
    Start,
    /// Run the shutdown coordinator; a task set exists only after a
    /// successful start.
    Shutdown { with_tasks: bool },
    /// Terminal: nothing is left to do.
    Done,
}

/// An observation the driver feeds back into the machine.
#[derive(Clone, Copy, Debug, PartialEq, Eq, Structural)]
pub enum SimEvent {
    /// The requested collaborator call succeeded.
    CallOk,
    /// The requested collaborator call failed.
    CallFailed,
    /// The operator acknowledged a pause, or an interrupt asked to stop.
    OperatorReady,
    /// The shutdown coordinator has finished.
    ShutdownComplete,
}

/// The lifecycle orchestrator: the immutable topology, the current phase,
/// and the cursor into the phase's instruction sequence.
pub struct Orchestrator {
    pub topology: Topology,
    pub phase: Phase,
    pub cursor: usize,
}

/// Move past every instruction phase whose sequence is exhausted, in the
/// fixed phase order, so that the machine always points at a real action.
pub open spec fn spec_norm(s: Orchestrator) -> Orchestrator {
    let s1 = if s.phase == Phase::NetworkCreated && s.cursor >= s.topology.connections@.len() {
        Orchestrator { phase: Phase::PeersConnected, cursor: 0, ..s }
    } else {
        s
    };
    let s2 = if s1.phase == Phase::PeersConnected && s1.cursor >= s1.topology.fundings@.len() {
        Orchestrator { phase: Phase::Funded, cursor: 0, ..s1 }
    } else {
        s1
    };
    let s3 = if s2.phase == Phase::Funded && s2.cursor >= s2.topology.channels@.len() {
        Orchestrator { phase: Phase::ChannelsOpened, cursor: 0, ..s2 }
    } else {
        s2
    };
    let s4 = if s3.phase == Phase::ChannelsOpened && s3.cursor >= s3.topology.activities@.len() {
        Orchestrator { phase: Phase::ActivityAdded, cursor: 0, ..s3 }
    } else {
        s3
    };
    if s4.phase == Phase::ActivityAdded && s4.cursor >= s4.topology.events@.len() {
        Orchestrator { phase: Phase::EventsAdded, cursor: 0, ..s4 }
    } else {
        s4
    }
}

/// The transition function of the machine.
///
/// A failing setup call moves to `Failed` from every state up to and
/// including `Finalized`; shutdown-stage errors are absorbed and never fail
/// the machine. `Stopped` is terminal.
pub open spec fn spec_step(s: Orchestrator, ev: SimEvent) -> Orchestrator {
    match ev {
        SimEvent::CallOk => match s.phase {
            Phase::Idle => spec_norm(Orchestrator { phase: Phase::NetworkCreated, cursor: 0, ..s }),
            Phase::NetworkCreated | Phase::PeersConnected | Phase::Funded | Phase::ChannelsOpened
                | Phase::ActivityAdded => spec_norm(
                Orchestrator { cursor: (s.cursor + 1) as usize, ..s },
            ),
            Phase::EventsAdded => if s.cursor == 1 {
                Orchestrator { phase: Phase::Finalized, cursor: 0, ..s }
            } else {
                s
            },
            Phase::Finalized => Orchestrator { phase: Phase::Running, cursor: 0, ..s },
            _ => s,
        },
        SimEvent::CallFailed => match s.phase {
            Phase::Idle | Phase::NetworkCreated | Phase::PeersConnected | Phase::Funded
                | Phase::ChannelsOpened | Phase::ActivityAdded | Phase::EventsAdded
                | Phase::Finalized => Orchestrator { phase: Phase::Failed, cursor: 0, ..s },
            _ => s,
        },
        SimEvent::OperatorReady => match s.phase {
            Phase::EventsAdded => if s.cursor == 0 {
                Orchestrator { cursor: 1, ..s }
            } else {
                s
            },
            Phase::Running => Orchestrator { phase: Phase::Stopping, cursor: 0, ..s },
            _ => s,
        },
        SimEvent::ShutdownComplete => match s.phase {
            Phase::Stopping | Phase::Failed => Orchestrator { phase: Phase::Stopped, cursor: 0, ..s },
            _ => s,
        },
    }
}

/// The action the machine requests in a given state.
pub open spec fn spec_action(s: Orchestrator) -> SimAction {
    match s.phase {
        Phase::Idle => SimAction::CreateNetwork,
        Phase::NetworkCreated => SimAction::Connect {
            conn: s.topology.connections@[s.cursor as int],
        },
        Phase::PeersConnected => SimAction::Fund { fund: s.topology.fundings@[s.cursor as int] },
        Phase::Funded => SimAction::OpenChannel { chan: s.topology.channels@[s.cursor as int] },
        Phase::ChannelsOpened => SimAction::AddActivity {
            activity: s.topology.activities@[s.cursor as int],
        },
        Phase::ActivityAdded => SimAction::AddEvent { event: s.topology.events@[s.cursor as int] },
        Phase::EventsAdded => if s.cursor == 0 {
            SimAction::AwaitOperator
        } else {
            SimAction::Finalize
        },
        Phase::Finalized => SimAction::Start,
        Phase::Running => SimAction::AwaitOperator,
        Phase::Stopping => SimAction::Shutdown { with_tasks: true },
        Phase::Failed => SimAction::Shutdown { with_tasks: false },
        Phase::Stopped => SimAction::Done,
    }
}

/// The machine's well-formedness: whenever a phase is still applying
/// instructions, the cursor points at one.
pub open spec fn inv(s: Orchestrator) -> bool {
    &&& (s.phase == Phase::NetworkCreated ==> s.cursor < s.topology.connections@.len())
    &&& (s.phase == Phase::PeersConnected ==> s.cursor < s.topology.fundings@.len())
    &&& (s.phase == Phase::Funded ==> s.cursor < s.topology.channels@.len())
    &&& (s.phase == Phase::ChannelsOpened ==> s.cursor < s.topology.activities@.len())
    &&& (s.phase == Phase::ActivityAdded ==> s.cursor < s.topology.events@.len())
    &&& (s.phase == Phase::EventsAdded ==> s.cursor <= 1)
    &&& ((s.phase == Phase::Idle || s.phase == Phase::Finalized || s.phase == Phase::Running
        || s.phase == Phase::Stopping || s.phase == Phase::Stopped || s.phase == Phase::Failed)
        ==> s.cursor == 0)
}

impl Orchestrator {
    /// A fresh machine over a generated topology, idle, nothing applied.
    pub fn new(topology: Topology) -> (s: Self)
        ensures
            s.topology == topology,
            s.phase == Phase::Idle,
            s.cursor == 0,
            inv(s),
    {
        Orchestrator { topology, phase: Phase::Idle, cursor: 0 }
    }

    /// Step past exhausted instruction phases.
    fn advance(&mut self)
        ensures
            *final(self) == spec_norm(*old(self)),
    {
        if self.phase == Phase::NetworkCreated && self.cursor >= self.topology.connections.len() {
            self.phase = Phase::PeersConnected;
            self.cursor = 0;
        }
        if self.phase == Phase::PeersConnected && self.cursor >= self.topology.fundings.len() {
            self.phase = Phase::Funded;
            self.cursor = 0;
        }
        if self.phase == Phase::Funded && self.cursor >= self.topology.channels.len() {
            self.phase = Phase::ChannelsOpened;
            self.cursor = 0;
        }
        if self.phase == Phase::ChannelsOpened && self.cursor >= self.topology.activities.len() {
            self.phase = Phase::ActivityAdded;
            self.cursor = 0;
        }
        if self.phase == Phase::ActivityAdded && self.cursor >= self.topology.events.len() {
            self.phase = Phase::EventsAdded;
            self.cursor = 0;
        }
    }

    /// The action the driver must perform next.
    pub fn next_action(&self) -> (a: SimAction)
        requires
            inv(*self),
        ensures
            a == spec_action(*self),
    {
        match self.phase {
            Phase::Idle => SimAction::CreateNetwork,
            Phase::NetworkCreated => SimAction::Connect {
                conn: self.topology.connections[self.cursor],
            },
            Phase::PeersConnected => SimAction::Fund { fund: self.topology.fundings[self.cursor] },
            Phase::Funded => SimAction::OpenChannel { chan: self.topology.channels[self.cursor] },
            Phase::ChannelsOpened => SimAction::AddActivity {
                activity: self.topology.activities[self.cursor],
            },
            Phase::ActivityAdded => SimAction::AddEvent {
                event: self.topology.events[self.cursor],
            },
            Phase::EventsAdded => if self.cursor == 0 {
                SimAction::AwaitOperator
            } else {
                SimAction::Finalize
            },
            Phase::Finalized => SimAction::Start,
            Phase::Running => SimAction::AwaitOperator,
            Phase::Stopping => SimAction::Shutdown { with_tasks: true },
            Phase::Failed => SimAction::Shutdown { with_tasks: false },
            Phase::Stopped => SimAction::Done,
        }
    }

    /// Feed the outcome of the last performed action back into the machine.
    pub fn on_event(&mut self, ev: SimEvent)
        requires
            inv(*old(self)),
        ensures
            *final(self) == spec_step(*old(self), ev),
            inv(*final(self)),
    {
        match ev {
            SimEvent::CallOk => {
                match self.phase {
                    Phase::Idle => {
                        self.phase = Phase::NetworkCreated;
                        self.cursor = 0;
                        self.advance();
                    },
                    Phase::NetworkCreated => {
                        let n: usize = self.topology.connections.len();
                        proof {
                            assert(self.cursor < n);
                        }
                        self.cursor = self.cursor + 1;
                        self.advance();
                    },
                    Phase::PeersConnected => {
                        let n: usize = self.topology.fundings.len();
                        proof {
                            assert(self.cursor < n);
                        }
                        self.cursor = self.cursor + 1;
                        self.advance();
                    },
                    Phase::Funded => {
                        let n: usize = self.topology.channels.len();
                        proof {
                            assert(self.cursor < n);
                        }
                        self.cursor = self.cursor + 1;
                        self.advance();
                    },
                    Phase::ChannelsOpened => {
                        let n: usize = self.topology.activities.len();
                        proof {
                            assert(self.cursor < n);
                        }
                        self.cursor = self.cursor + 1;
                        self.advance();
                    },
                    Phase::ActivityAdded => {
                        let n: usize = self.topology.events.len();
                        proof {
                            assert(self.cursor < n);
                        }
                        self.cursor = self.cursor + 1;
                        self.advance();
                    },
                    Phase::EventsAdded => {
                        if self.cursor == 1 {
                            self.phase = Phase::Finalized;
                            self.cursor = 0;
                        }
                    },
                    Phase::Finalized => {
                        self.phase = Phase::Running;
                    },
                    _ => {},
                }
            },
            SimEvent::CallFailed => {
                match self.phase {
                    Phase::Idle | Phase::NetworkCreated | Phase::PeersConnected | Phase::Funded
                        | Phase::ChannelsOpened | Phase::ActivityAdded | Phase::EventsAdded
                        | Phase::Finalized => {
                        self.phase = Phase::Failed;
                        self.cursor = 0;
                    },
                    _ => {},
                }
            },
            SimEvent::OperatorReady => {
                match self.phase {
                    Phase::EventsAdded => {
                        if self.cursor == 0 {
                            self.cursor = 1;
                        }
                    },
                    Phase::Running => {
                        self.phase = Phase::Stopping;
                    },
                    _ => {},
                }
            },
            SimEvent::ShutdownComplete => {
                match self.phase {
                    Phase::Stopping | Phase::Failed => {
                        self.phase = Phase::Stopped;
                        self.cursor = 0;
                    },
                    _ => {},
                }
            },
        }
    }
}

/// Run the machine over a sequence of observations.
pub open spec fn spec_run(s: Orchestrator, evs: Seq<SimEvent>) -> Orchestrator
    decreases evs.len(),
{
    if evs.len() == 0 {
        s
    } else {
        spec_run(spec_step(s, evs[0]), evs.drop_first())
    }
}

/// A state in which the next requested action is a setup call into the
/// collaborator.
pub open spec fn is_setup_phase(p: Phase) -> bool {
    p == Phase::Idle || p == Phase::NetworkCreated || p == Phase::PeersConnected || p
        == Phase::Funded || p == Phase::ChannelsOpened || p == Phase::ActivityAdded || p
        == Phase::EventsAdded || p == Phase::Finalized
}

/// From `Failed` or `Stopped`, every future run stays in those two states,
/// and moves to `Stopped` at most once, on shutdown completion.
proof fn lemma_terminal_run(s: Orchestrator, evs: Seq<SimEvent>)
    requires
        s.phase == Phase::Failed || s.phase == Phase::Stopped,
    ensures
        spec_run(s, evs).phase == Phase::Failed || spec_run(s, evs).phase == Phase::Stopped,
        s.phase == Phase::Stopped ==> spec_run(s, evs).phase == Phase::Stopped,
    decreases evs.len(),
{
    if evs.len() > 0 {
        lemma_terminal_run(spec_step(s, evs[0]), evs.drop_first());
    }
}

/// Law (fail-fast): if a collaborator call fails during any setup phase,
/// the machine moves to `Failed` at once; from there the only action ever
/// requested is a shutdown with no task set until that shutdown completes,
/// and afterwards only `Done` — no instruction after the failing one is
/// ever handed to the collaborator, whatever observations arrive later.
pub proof fn lemma_fail_fast(s: Orchestrator, evs: Seq<SimEvent>)
    requires
        is_setup_phase(s.phase),
    ensures
        ({
            let f = spec_step(s, SimEvent::CallFailed);
            let r = spec_run(f, evs);
            &&& f.phase == Phase::Failed
            &&& spec_action(f) == (SimAction::Shutdown { with_tasks: false })
            &&& r.phase == Phase::Failed || r.phase == Phase::Stopped
            &&& (r.phase == Phase::Failed ==> spec_action(r) == (SimAction::Shutdown {
                with_tasks: false,
            }))
            &&& (r.phase == Phase::Stopped ==> spec_action(r) == SimAction::Done)
        }),
{
    let f = spec_step(s, SimEvent::CallFailed);
    lemma_terminal_run(f, evs);
}

} // verus!
