use hw_xapp::dispatch::{DispatchEvent, FailurePolicy, StopReason};
use hw_xapp::envelope::MessageEnvelope;
use hw_xapp::handlers::{FailureReason, HandlerOutcome, HandlerRegistry};
use hw_xapp::lifecycle::{
    exit_status, LifecycleAction, LifecycleController, LifecycleEvent, LifecycleState,
    ShutdownCause, StartupError,
};
use hw_xapp::orchestrator::OrchestratorEvent;
use hw_xapp::settings::Settings;
use hw_xapp::subscription::NodeIdentity;

fn node(name: &str) -> NodeIdentity {
    NodeIdentity {
        inventory_name: String::from(name),
        plmn_id: String::new(),
        nb_id: String::new(),
    }
}

fn controller() -> LifecycleController {
    LifecycleController::new(
        Settings::default(),
        HandlerRegistry::builtin(),
        FailurePolicy::StopLoop,
    )
}

/// Takes a controller as far as the discovery of the nodes.
fn discovering() -> LifecycleController {
    let mut controller = controller();
    assert!(matches!(
        controller.step(LifecycleEvent::Started),
        LifecycleAction::ObserveReadiness
    ));
    assert!(matches!(
        controller.step(LifecycleEvent::ReadinessObserved(true)),
        LifecycleAction::Register(_)
    ));
    assert!(matches!(
        controller.step(LifecycleEvent::Registered),
        LifecycleAction::WaitForPropagation(60_000)
    ));
    assert!(matches!(
        controller.step(LifecycleEvent::PropagationElapsed),
        LifecycleAction::ListNodes
    ));
    assert_eq!(controller.state(), LifecycleState::DiscoveringNodes);
    controller
}

fn serving() -> LifecycleController {
    let mut controller = discovering();
    assert!(matches!(
        controller.step(LifecycleEvent::NodesListed(Vec::new())),
        LifecycleAction::Serve
    ));
    controller
}

#[test]
fn startup_with_empty_inventory_reaches_serving_without_calls() {
    let mut controller = controller();
    assert_eq!(controller.state(), LifecycleState::Initializing);
    let events = vec![
        LifecycleEvent::Started,
        LifecycleEvent::ReadinessObserved(false),
        LifecycleEvent::ReadinessObserved(false),
        LifecycleEvent::ReadinessObserved(true),
        LifecycleEvent::Registered,
        LifecycleEvent::PropagationElapsed,
        LifecycleEvent::NodesListed(Vec::new()),
    ];
    let mut submissions = 0;
    let mut alarms = 0;
    let mut last = None;
    for event in events {
        let action = controller.step(event);
        match action {
            LifecycleAction::Submit(_) => submissions += 1,
            LifecycleAction::RaiseAlarm(_) => alarms += 1,
            LifecycleAction::OutOfTurn => panic!("every event was in turn"),
            _ => {}
        }
        last = Some(action);
    }
    assert_eq!(submissions, 0);
    assert_eq!(alarms, 0);
    assert!(matches!(last, Some(LifecycleAction::Serve)));
    assert_eq!(controller.state(), LifecycleState::Serving);
}

#[test]
fn startup_walks_through_the_states_in_order() {
    let mut controller = controller();
    assert_eq!(controller.state(), LifecycleState::Initializing);

    assert!(matches!(
        controller.step(LifecycleEvent::Started),
        LifecycleAction::ObserveReadiness
    ));
    assert_eq!(controller.state(), LifecycleState::AwaitingTransportReady);

    assert!(matches!(
        controller.step(LifecycleEvent::ReadinessObserved(false)),
        LifecycleAction::WaitThenObserve(1000)
    ));
    assert_eq!(controller.state(), LifecycleState::AwaitingTransportReady);

    match controller.step(LifecycleEvent::ReadinessObserved(true)) {
        LifecycleAction::Register(name) => assert_eq!(name, "hw-rust"),
        other => panic!("a ready transport leads to registration, got {:?}", other),
    }
    assert_eq!(controller.state(), LifecycleState::Registering);

    assert!(matches!(
        controller.step(LifecycleEvent::Registered),
        LifecycleAction::WaitForPropagation(60_000)
    ));
    assert_eq!(controller.state(), LifecycleState::AwaitingPropagation);

    assert!(matches!(
        controller.step(LifecycleEvent::PropagationElapsed),
        LifecycleAction::ListNodes
    ));
    assert_eq!(controller.state(), LifecycleState::DiscoveringNodes);

    match controller.step(LifecycleEvent::NodesListed(vec![node("a"), node("b")])) {
        LifecycleAction::Submit(request) => assert_eq!(request.target_node_id, "a"),
        other => panic!("discovered nodes are subscribed, got {:?}", other),
    }
    assert_eq!(controller.state(), LifecycleState::Subscribing);

    match controller.step(LifecycleEvent::Subscription(OrchestratorEvent::SubmitFailed)) {
        LifecycleAction::RaiseAlarm(alarm) => {
            assert_eq!(alarm.source, "a");
            assert_eq!(alarm.code, 8086);
        }
        other => panic!("a failed subscription raises an alarm, got {:?}", other),
    }
    assert_eq!(controller.state(), LifecycleState::Subscribing);

    match controller.step(LifecycleEvent::Subscription(OrchestratorEvent::AlarmFailed)) {
        LifecycleAction::Submit(request) => assert_eq!(request.target_node_id, "b"),
        other => panic!("the next node follows a failed alarm, got {:?}", other),
    }
    assert_eq!(controller.state(), LifecycleState::Subscribing);

    assert!(matches!(
        controller.step(LifecycleEvent::Subscription(OrchestratorEvent::SubmitSucceeded)),
        LifecycleAction::Serve
    ));
    assert_eq!(controller.state(), LifecycleState::Serving);
}

#[test]
fn startup_fails_when_the_transport_never_gets_ready() {
    let mut controller = controller();
    controller.step(LifecycleEvent::Started);
    for _ in 0..9 {
        assert!(matches!(
            controller.step(LifecycleEvent::ReadinessObserved(false)),
            LifecycleAction::WaitThenObserve(1000)
        ));
        assert_eq!(controller.state(), LifecycleState::AwaitingTransportReady);
    }
    let action = controller.step(LifecycleEvent::ReadinessObserved(false));
    assert!(matches!(action, LifecycleAction::Abort(StartupError::TransportNotReady)));
    assert_eq!(exit_status(&action), Some(1));
    assert_eq!(
        controller.state(),
        LifecycleState::Failed(StartupError::TransportNotReady)
    );
    assert!(matches!(
        controller.step(LifecycleEvent::ReadinessObserved(true)),
        LifecycleAction::OutOfTurn
    ));
    assert!(matches!(controller.step(LifecycleEvent::Registered), LifecycleAction::OutOfTurn));
    assert_eq!(
        controller.state(),
        LifecycleState::Failed(StartupError::TransportNotReady)
    );
}

#[test]
fn startup_without_attempts_fails_at_once() {
    let mut settings = Settings::default();
    settings.max_attempts = 0;
    let mut controller =
        LifecycleController::new(settings, HandlerRegistry::builtin(), FailurePolicy::StopLoop);
    assert!(matches!(
        controller.step(LifecycleEvent::Started),
        LifecycleAction::Abort(StartupError::TransportNotReady)
    ));
    assert_eq!(
        controller.state(),
        LifecycleState::Failed(StartupError::TransportNotReady)
    );
}

#[test]
fn startup_fails_when_registration_is_refused() {
    let mut controller = controller();
    controller.step(LifecycleEvent::Started);
    controller.step(LifecycleEvent::ReadinessObserved(true));
    let action = controller.step(LifecycleEvent::RegistrationFailed);
    assert!(matches!(action, LifecycleAction::Abort(StartupError::RegistrationFailed)));
    assert_eq!(exit_status(&action), Some(1));
    assert_eq!(
        controller.state(),
        LifecycleState::Failed(StartupError::RegistrationFailed)
    );
}

#[test]
fn startup_fails_when_the_inventory_cannot_be_read() {
    let mut controller = discovering();
    let action = controller.step(LifecycleEvent::NodeLookupFailed);
    assert!(matches!(action, LifecycleAction::Abort(StartupError::DiscoveryFailed)));
    assert_eq!(exit_status(&action), Some(1));
    assert_eq!(
        controller.state(),
        LifecycleState::Failed(StartupError::DiscoveryFailed)
    );
}

#[test]
fn settings_shape_the_startup() {
    let mut settings = Settings::default();
    settings.app_name = String::from("probe");
    settings.max_attempts = 2;
    settings.poll_interval_ms = 7;
    settings.propagation_wait_ms = 0;
    let mut controller =
        LifecycleController::new(settings, HandlerRegistry::builtin(), FailurePolicy::StopLoop);
    controller.step(LifecycleEvent::Started);
    assert!(matches!(
        controller.step(LifecycleEvent::ReadinessObserved(false)),
        LifecycleAction::WaitThenObserve(7)
    ));
    match controller.step(LifecycleEvent::ReadinessObserved(true)) {
        LifecycleAction::Register(name) => assert_eq!(name, "probe"),
        other => panic!("expected registration, got {:?}", other),
    }
    assert!(matches!(
        controller.step(LifecycleEvent::Registered),
        LifecycleAction::WaitForPropagation(0)
    ));
}

#[test]
fn events_out_of_turn_change_nothing() {
    let mut controller = controller();
    assert!(matches!(
        controller.step(LifecycleEvent::ReadinessObserved(true)),
        LifecycleAction::OutOfTurn
    ));
    assert!(matches!(controller.step(LifecycleEvent::Registered), LifecycleAction::OutOfTurn));
    assert!(matches!(
        controller.step(LifecycleEvent::NodesListed(vec![node("a")])),
        LifecycleAction::OutOfTurn
    ));
    assert!(matches!(
        controller.step(LifecycleEvent::StopRequested),
        LifecycleAction::OutOfTurn
    ));
    assert_eq!(controller.state(), LifecycleState::Initializing);

    let mut controller = discovering();
    assert!(matches!(
        controller.step(LifecycleEvent::Subscription(OrchestratorEvent::SubmitSucceeded)),
        LifecycleAction::OutOfTurn
    ));
    assert!(matches!(controller.step(LifecycleEvent::Started), LifecycleAction::OutOfTurn));
    assert_eq!(controller.state(), LifecycleState::DiscoveringNodes);

    controller.step(LifecycleEvent::NodesListed(vec![node("a")]));
    assert!(matches!(
        controller.step(LifecycleEvent::Subscription(OrchestratorEvent::AlarmRaised)),
        LifecycleAction::OutOfTurn
    ));
    assert!(matches!(
        controller.step(LifecycleEvent::Transport(DispatchEvent::ReceiveFailed)),
        LifecycleAction::OutOfTurn
    ));
    assert_eq!(controller.state(), LifecycleState::Subscribing);
}

#[test]
fn serving_application_dispatches_messages() {
    let mut controller = serving();
    let request = MessageEnvelope::new(100, b"ping".to_vec(), b"tx".to_vec());
    match controller.step(LifecycleEvent::Transport(DispatchEvent::Received(request))) {
        LifecycleAction::Reply(reply) => {
            assert_eq!(reply.mtype, 101);
            assert_eq!(reply.payload, b"OK\n".to_vec());
            assert_eq!(reply.transaction, b"tx".to_vec());
        }
        other => panic!("a health check is answered, got {:?}", other),
    }
    assert!(matches!(
        controller.step(LifecycleEvent::Transport(DispatchEvent::ReplySent)),
        LifecycleAction::Handled(100, HandlerOutcome::Success)
    ));
    let unknown = MessageEnvelope::new(999, Vec::new(), Vec::new());
    assert!(matches!(
        controller.step(LifecycleEvent::Transport(DispatchEvent::Received(unknown))),
        LifecycleAction::Handled(999, HandlerOutcome::Failure(FailureReason::Unhandled))
    ));
    assert_eq!(controller.state(), LifecycleState::Serving);
    assert_eq!(controller.received(100), 1);
    assert_eq!(controller.received(999), 1);
    assert_eq!(controller.received(12050), 0);
}

#[test]
fn serving_application_shuts_down_when_receiving_fails() {
    let mut controller = serving();
    let action = controller.step(LifecycleEvent::Transport(DispatchEvent::ReceiveFailed));
    assert!(matches!(
        action,
        LifecycleAction::Shutdown(ShutdownCause::DispatchStopped(StopReason::ReceiveFailed))
    ));
    assert_eq!(exit_status(&action), Some(1));
    assert_eq!(controller.state(), LifecycleState::ShuttingDown);
    assert!(matches!(
        controller.step(LifecycleEvent::Transport(DispatchEvent::ReceiveFailed)),
        LifecycleAction::OutOfTurn
    ));
    assert!(matches!(
        controller.step(LifecycleEvent::StopRequested),
        LifecycleAction::OutOfTurn
    ));
}

#[test]
fn serving_application_shuts_down_when_a_reply_cannot_be_sent() {
    let mut controller = serving();
    let request = MessageEnvelope::new(100, Vec::new(), Vec::new());
    controller.step(LifecycleEvent::Transport(DispatchEvent::Received(request)));
    let action = controller.step(LifecycleEvent::Transport(DispatchEvent::ReplyFailed));
    assert!(matches!(
        action,
        LifecycleAction::Shutdown(ShutdownCause::DispatchStopped(StopReason::HandlerFailed(
            100,
            FailureReason::SendFailed
        )))
    ));
    assert_eq!(exit_status(&action), Some(1));
    assert_eq!(controller.state(), LifecycleState::ShuttingDown);
    assert_eq!(controller.received(100), 1);
}

#[test]
fn serving_application_stops_when_asked() {
    let mut controller = serving();
    let action = controller.step(LifecycleEvent::StopRequested);
    assert!(matches!(action, LifecycleAction::Shutdown(ShutdownCause::Requested)));
    assert_eq!(exit_status(&action), Some(0));
    assert_eq!(controller.state(), LifecycleState::ShuttingDown);
}

#[test]
fn exit_status_is_set_only_by_actions_that_end_the_process() {
    assert_eq!(exit_status(&LifecycleAction::Serve), None);
    assert_eq!(exit_status(&LifecycleAction::ListNodes), None);
    assert_eq!(exit_status(&LifecycleAction::OutOfTurn), None);
    assert_eq!(exit_status(&LifecycleAction::ObserveReadiness), None);
    assert_eq!(
        exit_status(&LifecycleAction::Abort(StartupError::DiscoveryFailed)),
        Some(1)
    );
    assert_eq!(
        exit_status(&LifecycleAction::Shutdown(ShutdownCause::Requested)),
        Some(0)
    );
}
