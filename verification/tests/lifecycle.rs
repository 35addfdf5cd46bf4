use interop_sim::generator::generate;
use interop_sim::names::NodeKind;
use interop_sim::orchestrator::{Orchestrator, Phase, SimAction, SimEvent};
use interop_sim::scenarios::simple_descriptor;
use interop_sim::shutdown::{
    CancellationToken, SdAction, SdEvent, ShutdownCoordinator, WaitOutcome,
};
use interop_sim::topology::{EventAction, EventSpec, NodeRef};

fn fresh_orchestrator() -> Orchestrator {
    let t = generate(&simple_descriptor()).unwrap();
    Orchestrator::new(t)
}

#[test]
fn happy_path_applies_every_instruction_in_phase_order() {
    let mut o = fresh_orchestrator();
    let mut log: Vec<&str> = Vec::new();
    loop {
        let a = o.next_action();
        let ev = match a {
            SimAction::CreateNetwork => {
                log.push("create");
                SimEvent::CallOk
            }
            SimAction::Connect { .. } => {
                log.push("connect");
                SimEvent::CallOk
            }
            SimAction::Fund { .. } => {
                log.push("fund");
                SimEvent::CallOk
            }
            SimAction::OpenChannel { .. } => {
                log.push("open");
                SimEvent::CallOk
            }
            SimAction::AddActivity { .. } => {
                log.push("activity");
                SimEvent::CallOk
            }
            SimAction::AddEvent { .. } => {
                log.push("event");
                SimEvent::CallOk
            }
            SimAction::AwaitOperator => {
                log.push("pause");
                SimEvent::OperatorReady
            }
            SimAction::Finalize => {
                log.push("finalize");
                SimEvent::CallOk
            }
            SimAction::Start => {
                log.push("start");
                SimEvent::CallOk
            }
            SimAction::Shutdown { with_tasks } => {
                assert!(with_tasks, "a clean run reaches shutdown with its task set");
                log.push("shutdown");
                SimEvent::ShutdownComplete
            }
            SimAction::Done => break,
        };
        o.on_event(ev);
    }
    let mut expected: Vec<&str> = vec!["create"];
    expected.extend(std::iter::repeat("connect").take(6));
    expected.extend(std::iter::repeat("fund").take(6));
    expected.extend(std::iter::repeat("open").take(6));
    expected.extend(std::iter::repeat("activity").take(4));
    expected.extend(["pause", "finalize", "start", "pause", "shutdown"]);
    assert_eq!(log, expected);
    assert_eq!(o.phase, Phase::Stopped);
}

#[test]
fn scripted_events_are_applied_after_activity_and_before_the_pause() {
    let mut d = simple_descriptor();
    d.events.push(EventSpec {
        offset: 10,
        action: EventAction::CloseChannel {
            node: NodeRef { kind: NodeKind::Lnd, index: 0 },
            channel_id: 0,
        },
    });
    let mut o = Orchestrator::new(generate(&d).unwrap());
    // apply network creation, 6 connects, 6 fundings, 6 opens, 4 activities
    for _ in 0..23 {
        o.on_event(SimEvent::CallOk);
    }
    match o.next_action() {
        SimAction::AddEvent { event } => {
            assert_eq!(event.offset, 10);
            assert!(matches!(
                event.action,
                EventAction::CloseChannel { channel_id: 0, .. }
            ));
        }
        other => panic!("expected the scripted event next, got {:?}", other),
    }
    o.on_event(SimEvent::CallOk);
    assert_eq!(o.next_action(), SimAction::AwaitOperator);
}

#[test]
fn fail_fast_aborts_phase_and_requests_one_shutdown_without_tasks() {
    let mut o = fresh_orchestrator();
    o.on_event(SimEvent::CallOk); // network created
    let mut applied: usize = 0;
    // two connects succeed, the third fails
    for _ in 0..2 {
        assert!(matches!(o.next_action(), SimAction::Connect { .. }));
        o.on_event(SimEvent::CallOk);
        applied += 1;
    }
    assert!(matches!(o.next_action(), SimAction::Connect { .. }));
    o.on_event(SimEvent::CallFailed);
    assert_eq!(applied, 2);
    assert_eq!(o.phase, Phase::Failed);
    // the only requested action is now a shutdown with no task set,
    // whatever stray observations arrive
    assert_eq!(o.next_action(), SimAction::Shutdown { with_tasks: false });
    o.on_event(SimEvent::CallOk);
    assert_eq!(o.next_action(), SimAction::Shutdown { with_tasks: false });
    o.on_event(SimEvent::OperatorReady);
    assert_eq!(o.next_action(), SimAction::Shutdown { with_tasks: false });
    // once the shutdown completes, nothing further is ever requested
    o.on_event(SimEvent::ShutdownComplete);
    assert_eq!(o.phase, Phase::Stopped);
    assert_eq!(o.next_action(), SimAction::Done);
    o.on_event(SimEvent::CallOk);
    assert_eq!(o.next_action(), SimAction::Done);
}

#[test]
fn failure_at_network_creation_also_funnels_into_shutdown() {
    let mut o = fresh_orchestrator();
    assert_eq!(o.next_action(), SimAction::CreateNetwork);
    o.on_event(SimEvent::CallFailed);
    assert_eq!(o.next_action(), SimAction::Shutdown { with_tasks: false });
    o.on_event(SimEvent::ShutdownComplete);
    assert_eq!(o.next_action(), SimAction::Done);
}

#[test]
fn empty_teardown_still_clears_the_token() {
    let mut token = CancellationToken::new();
    assert!(token.is_running());
    let mut c = ShutdownCoordinator::new(false, 0);
    assert_eq!(c.next_action(), SdAction::StopNetwork);
    c.on_event(SdEvent::NetworkStopped { ok: false });
    assert_eq!(c.next_action(), SdAction::ClearToken);
    c.clear_token(&mut token);
    assert!(!token.is_running());
    assert_eq!(c.next_action(), SdAction::Done);
    assert!(c.exits.is_empty());
    assert_eq!(c.failed_joins, 0);
}

#[test]
fn token_clear_is_idempotent() {
    let mut token = CancellationToken::new();
    token.clear();
    assert!(!token.is_running());
    token.clear();
    assert!(!token.is_running());
}

#[test]
fn wait_failure_does_not_skip_remaining_processes() {
    let mut token = CancellationToken::new();
    let mut c = ShutdownCoordinator::new(true, 3);
    assert_eq!(c.next_action(), SdAction::StopTasks);
    c.on_event(SdEvent::TasksSignalled);
    assert_eq!(c.next_action(), SdAction::JoinTask);
    c.on_event(SdEvent::TaskJoined { ok: false });
    assert_eq!(c.next_action(), SdAction::JoinTask);
    c.on_event(SdEvent::TaskJoined { ok: true });
    c.on_event(SdEvent::TasksDrained);
    assert_eq!(c.next_action(), SdAction::StopNetwork);
    c.on_event(SdEvent::NetworkStopped { ok: true });
    assert_eq!(c.next_action(), SdAction::WaitProcess { index: 0 });
    c.on_event(SdEvent::ProcessWaited { outcome: WaitOutcome::Exited { code: 0 } });
    assert_eq!(c.next_action(), SdAction::WaitProcess { index: 1 });
    c.on_event(SdEvent::ProcessWaited { outcome: WaitOutcome::WaitFailed });
    // the failed wait is recorded and the next process is still waited on
    assert_eq!(c.next_action(), SdAction::WaitProcess { index: 2 });
    c.on_event(SdEvent::ProcessWaited { outcome: WaitOutcome::Exited { code: 1 } });
    assert_eq!(c.next_action(), SdAction::ClearToken);
    assert_eq!(
        c.exits,
        vec![
            WaitOutcome::Exited { code: 0 },
            WaitOutcome::WaitFailed,
            WaitOutcome::Exited { code: 1 },
        ]
    );
    assert_eq!(c.failed_joins, 1);
    c.clear_token(&mut token);
    assert!(!token.is_running());
    assert_eq!(c.next_action(), SdAction::Done);
}
