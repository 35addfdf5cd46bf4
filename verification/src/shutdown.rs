//! The shutdown coordinator and the cooperative cancellation token.
//!
//! Teardown runs in a fixed order — stop the simulation tasks and join each
//! of them, stop the emulated network, wait on every supervised node
//! process, clear the cancellation token — and every step is best-effort:
//! a failure in one step is recorded and never prevents the remaining steps
//! from running. Like the lifecycle orchestrator, the coordinator performs
//! no call itself; its driver performs each requested step and feeds the
//! outcome back.

use vstd::prelude::*;

verus! {

/// The process-wide cooperative stop signal. It starts set (running) at
/// fresh startup; an interrupt handler or the shutdown coordinator clears
/// it, idempotently; it is never set again. Readers poll it cooperatively —
/// nothing is ever preempted by force.
pub struct CancellationToken {
    running: bool,
}

impl CancellationToken {
    /// Whether the token still signals "keep running".
    pub closed spec fn spec_running(self) -> bool {
        self.running
    }

    /// A fresh token, set at process start.
    pub fn new() -> (t: Self)
        ensures
            t.spec_running(),
    {
        CancellationToken { running: true }
    }

    /// Clear the token: ask every cooperative loop to wind down. Idempotent.
    pub fn clear(&mut self)
        ensures
            !final(self).spec_running(),
    {
        self.running = false;
    }

    /// Poll the token.
    pub fn is_running(&self) -> (b: bool)
        ensures
            b == self.spec_running(),
    {
        self.running
    }
}

/// The recorded outcome of waiting on one supervised node process.
#[derive(Clone, Copy, Debug, PartialEq, Eq, Structural)]
pub enum WaitOutcome {
    /// The process exited and reported this status code.
    Exited { code: i32 },
    /// The process exited without a status code (e.g. ended by a signal).
    ExitedNoCode,
    /// Waiting itself failed; logged, never fatal.
    WaitFailed,
}

/// The stages of the shutdown sequence, in their fixed order.
#[derive(Clone, Copy, Debug, PartialEq, Eq, Structural)]
pub enum SdStage {
    /// Tell the collaborator to stop the simulation tasks.
    StoppingTasks,
    /// Join the running tasks one by one until none remains.
    DrainingTasks,
    /// Stop the emulated network.
    StoppingNetwork,
    /// Wait on the supervised node processes one by one.
    WaitingProcesses,
    /// Clear the cancellation token.
    ClearingToken,
    /// Everything is torn down.
    Finished,
}

/// The one step the driver must perform next.
#[derive(Clone, Copy, Debug, PartialEq, Eq, Structural)]
pub enum SdAction {
    /// Signal the collaborator to stop the simulation.
    StopTasks,
    /// Join the next finished simulation task, if any remains.
    JoinTask,
    /// Call the collaborator's network-stop operation.
    StopNetwork,
    /// Wait for the process with this index to exit.
    WaitProcess { index: usize },
    /// Clear the cancellation token (done through [`ShutdownCoordinator::clear_token`]).
    ClearToken,
    /// Terminal: the shutdown sequence is complete.
    Done,
}

/// An observation the driver feeds back into the coordinator.
#[derive(Clone, Copy, Debug, PartialEq, Eq, Structural)]
pub enum SdEvent {
    /// The stop-simulation signal has been sent.
    TasksSignalled,
    /// One task was joined; `ok` is false for a join failure, which is
    /// logged and never aborts joining the rest.
    TaskJoined { ok: bool },
    /// No task remains to join.
    TasksDrained,
    /// The network-stop operation returned; a failure is logged, not fatal.
    NetworkStopped { ok: bool },
    /// Waiting on the current process finished with this outcome.
    ProcessWaited { outcome: WaitOutcome },
}

/// The abstract state of the coordinator.
pub struct SdModel {
    pub has_tasks: bool,
    pub num_processes: int,
    pub stage: SdStage,
    pub failed_joins: int,
    pub exits: Seq<WaitOutcome>,
}

/// The coordinator: how far teardown has come and what it has recorded.
pub struct ShutdownCoordinator {
    pub has_tasks: bool,
    pub num_processes: usize,
    pub stage: SdStage,
    pub failed_joins: u64,
    pub exits: Vec<WaitOutcome>,
}

impl ShutdownCoordinator {
    /// The coordinator's abstract state.
    pub open spec fn model(self) -> SdModel {
        SdModel {
            has_tasks: self.has_tasks,
            num_processes: self.num_processes as int,
            stage: self.stage,
            failed_joins: self.failed_joins as int,
            exits: self.exits@,
        }
    }
}

/// The initial abstract state for a teardown over an optional task set and
/// `num_processes` supervised processes.
pub open spec fn sd_init(has_tasks: bool, num_processes: int) -> SdModel {
    SdModel {
        has_tasks,
        num_processes,
        stage: if has_tasks {
            SdStage::StoppingTasks
        } else {
            SdStage::StoppingNetwork
        },
        failed_joins: 0,
        exits: Seq::empty(),
    }
}

/// The transition function of the coordinator. No observation — success or
/// failure alike — ever moves it backwards or aborts a later stage.
pub open spec fn sd_step(m: SdModel, ev: SdEvent) -> SdModel {
    match ev {
        SdEvent::TasksSignalled => if m.stage == SdStage::StoppingTasks {
            SdModel { stage: SdStage::DrainingTasks, ..m }
        } else {
            m
        },
        SdEvent::TaskJoined { ok } => if m.stage == SdStage::DrainingTasks && !ok {
            SdModel {
                failed_joins: if m.failed_joins < u64::MAX {
                    m.failed_joins + 1
                } else {
                    m.failed_joins
                },
                ..m
            }
        } else {
            m
        },
        SdEvent::TasksDrained => if m.stage == SdStage::DrainingTasks {
            SdModel { stage: SdStage::StoppingNetwork, ..m }
        } else {
            m
        },
        SdEvent::NetworkStopped { ok: _ } => if m.stage == SdStage::StoppingNetwork {
            SdModel {
                stage: if m.num_processes == 0 {
                    SdStage::ClearingToken
                } else {
                    SdStage::WaitingProcesses
                },
                ..m
            }
        } else {
            m
        },
        SdEvent::ProcessWaited { outcome } => if m.stage == SdStage::WaitingProcesses {
            SdModel {
                stage: if m.exits.len() + 1 == m.num_processes {
                    SdStage::ClearingToken
                } else {
                    SdStage::WaitingProcesses
                },
                exits: m.exits.push(outcome),
                ..m
            }
        } else {
            m
        },
    }
}

/// The step the coordinator requests in a given abstract state.
pub open spec fn sd_action(m: SdModel) -> SdAction {
    match m.stage {
        SdStage::StoppingTasks => SdAction::StopTasks,
        SdStage::DrainingTasks => SdAction::JoinTask,
        SdStage::StoppingNetwork => SdAction::StopNetwork,
        SdStage::WaitingProcesses => SdAction::WaitProcess { index: m.exits.len() as usize },
        SdStage::ClearingToken => SdAction::ClearToken,
        SdStage::Finished => SdAction::Done,
    }
}

/// The coordinator's well-formedness: it waits on each process exactly
/// once, in index order, and records one outcome per waited process.
pub open spec fn sd_inv(m: SdModel) -> bool {
    &&& m.num_processes >= 0
    &&& m.exits.len() <= m.num_processes
    &&& (m.stage == SdStage::WaitingProcesses ==> m.exits.len() < m.num_processes)
    &&& ((m.stage == SdStage::StoppingTasks || m.stage == SdStage::DrainingTasks || m.stage
        == SdStage::StoppingNetwork) ==> m.exits.len() == 0)
    &&& ((m.stage == SdStage::ClearingToken || m.stage == SdStage::Finished) ==> m.exits.len()
        == m.num_processes)
    &&& m.failed_joins >= 0
}

impl ShutdownCoordinator {
    /// A fresh coordinator for a teardown over an optional task set and
    /// `num_processes` supervised node processes.
    pub fn new(has_tasks: bool, num_processes: usize) -> (c: Self)
        ensures
            c.model() == sd_init(has_tasks, num_processes as int),
            sd_inv(c.model()),
    {
        let c = ShutdownCoordinator {
            has_tasks,
            num_processes,
            stage: if has_tasks {
                SdStage::StoppingTasks
            } else {
                SdStage::StoppingNetwork
            },
            failed_joins: 0,
            exits: Vec::new(),
        };
        proof {
            assert(c.model().exits =~= sd_init(has_tasks, num_processes as int).exits);
        }
        c
    }

    /// The step the driver must perform next.
    pub fn next_action(&self) -> (a: SdAction)
        requires
            sd_inv(self.model()),
        ensures
            a == sd_action(self.model()),
    {
        match self.stage {
            SdStage::StoppingTasks => SdAction::StopTasks,
            SdStage::DrainingTasks => SdAction::JoinTask,
            SdStage::StoppingNetwork => SdAction::StopNetwork,
            SdStage::WaitingProcesses => SdAction::WaitProcess { index: self.exits.len() },
            SdStage::ClearingToken => SdAction::ClearToken,
            SdStage::Finished => SdAction::Done,
        }
    }

    /// Feed the outcome of the last performed step back into the
    /// coordinator. Whatever the outcome, the sequence moves forward: a
    /// failed join or a failed wait is recorded and the remaining tasks and
    /// processes are still handled.
    pub fn on_event(&mut self, ev: SdEvent)
        requires
            sd_inv(old(self).model()),
        ensures
            final(self).model() == sd_step(old(self).model(), ev),
            sd_inv(final(self).model()),
    {
        match ev {
            SdEvent::TasksSignalled => {
                if self.stage == SdStage::StoppingTasks {
                    self.stage = SdStage::DrainingTasks;
                }
            },
            SdEvent::TaskJoined { ok } => {
                if self.stage == SdStage::DrainingTasks && !ok {
                    if self.failed_joins < u64::MAX {
                        self.failed_joins = self.failed_joins + 1;
                    }
                }
            },
            SdEvent::TasksDrained => {
                if self.stage == SdStage::DrainingTasks {
                    self.stage = SdStage::StoppingNetwork;
                }
            },
            SdEvent::NetworkStopped { ok: _ } => {
                if self.stage == SdStage::StoppingNetwork {
                    self.stage = if self.num_processes == 0 {
                        SdStage::ClearingToken
                    } else {
                        SdStage::WaitingProcesses
                    };
                }
            },
            SdEvent::ProcessWaited { outcome } => {
                if self.stage == SdStage::WaitingProcesses {
                    self.exits.push(outcome);
                    self.stage = if self.exits.len() == self.num_processes {
                        SdStage::ClearingToken
                    } else {
                        SdStage::WaitingProcesses
                    };
                }
            },
        }
    }

    /// The final step of every teardown: clear the cancellation token.
    pub fn clear_token(&mut self, token: &mut CancellationToken)
        requires
            sd_inv(old(self).model()),
            old(self).stage == SdStage::ClearingToken,
        ensures
            !final(token).spec_running(),
            final(self).stage == SdStage::Finished,
            final(self).model() == (SdModel { stage: SdStage::Finished, ..old(self).model() }),
            sd_inv(final(self).model()),
    {
        token.clear();
        self.stage = SdStage::Finished;
    }
}

/// Run the coordinator over a sequence of observations.
pub open spec fn sd_run(m: SdModel, evs: Seq<SdEvent>) -> SdModel
    decreases evs.len(),
{
    if evs.len() == 0 {
        m
    } else {
        sd_run(sd_step(m, evs[0]), evs.drop_first())
    }
}

/// Law (idempotent teardown): with no task set and no process handles the
/// shutdown sequence is exactly stop-network then clear-token; whatever the
/// network stop reports, the coordinator reaches the token-clearing step
/// with nothing recorded and nothing failed, and finishing it clears the
/// token (the ensures of [`ShutdownCoordinator::clear_token`]).
pub proof fn lemma_empty_teardown(ok: bool)
    ensures
        ({
            let m0 = sd_init(false, 0);
            let m1 = sd_step(m0, SdEvent::NetworkStopped { ok });
            &&& sd_action(m0) == SdAction::StopNetwork
            &&& m1.stage == SdStage::ClearingToken
            &&& m1.exits.len() == 0
            &&& m1.failed_joins == 0
            &&& sd_action(m1) == SdAction::ClearToken
        }),
{
}

/// Law (partial-failure isolation): from any point of the process-wait
/// stage, one outcome per remaining process drives the coordinator to the
/// token-clearing step with every outcome recorded in order — a failure at
/// position `i` never skips positions `i+1` onward.
pub proof fn lemma_all_processes_waited(m: SdModel, outcomes: Seq<WaitOutcome>)
    requires
        sd_inv(m),
        m.stage == SdStage::WaitingProcesses,
        m.exits.len() + outcomes.len() == m.num_processes,
    ensures
        ({
            let evs = outcomes.map_values(|o: WaitOutcome| SdEvent::ProcessWaited { outcome: o });
            let f = sd_run(m, evs);
            &&& f.stage == SdStage::ClearingToken
            &&& f.exits == m.exits + outcomes
            &&& f.num_processes == m.num_processes
            &&& f.failed_joins == m.failed_joins
        }),
    decreases outcomes.len(),
{
    let evs = outcomes.map_values(|o: WaitOutcome| SdEvent::ProcessWaited { outcome: o });
    let m1 = sd_step(m, evs[0]);
    assert(m1.exits == m.exits.push(outcomes[0]));
    if outcomes.len() == 1 {
        assert(m1.stage == SdStage::ClearingToken);
        assert(sd_run(m, evs) == sd_run(m1, evs.drop_first()));
        assert(evs.drop_first().len() == 0);
        assert(m1.exits =~= m.exits + outcomes);
    } else {
        assert(m1.stage == SdStage::WaitingProcesses);
        assert(sd_inv(m1));
        lemma_all_processes_waited(m1, outcomes.drop_first());
        assert(evs.drop_first() =~= outcomes.drop_first().map_values(
            |o: WaitOutcome| SdEvent::ProcessWaited { outcome: o },
        ));
        assert(m.exits.push(outcomes[0]) + outcomes.drop_first() =~= m.exits + outcomes);
    }
}

} // verus!
