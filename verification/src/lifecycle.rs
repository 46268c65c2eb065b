//! The lifecycle controller: from start to serving, and from serving to
//! shutdown.
//!
//! The controller takes the application through its states in order: the
//! readiness gate, registration, the wait for routes to propagate, the
//! discovery of the nodes, one subscription for each node, and then the
//! dispatch loop. It is told what happened and answers with what to do; the
//! program around it does that and reports back.

use vstd::prelude::*;
use crate::alarm::{AlarmEvent, AlarmView};
use crate::dispatch::{
    dispatch_answer,
    dispatch_next,
    DispatchAction,
    DispatchActionView,
    DispatchEvent,
    DispatchEventView,
    DispatchLoop,
    DispatchPhase,
    DispatchView,
    FailurePolicy,
    StopReason,
};
use crate::envelope::{EnvelopeView, MessageEnvelope};
use crate::handlers::{Handler, HandlerOutcome, HandlerRegistry};
use crate::orchestrator::{
    alarms_in,
    calls_from,
    events_of,
    expected_alarms,
    expected_submissions,
    lemma_subscribe_all_calls,
    orchestrator_accepts,
    orchestrator_answer,
    orchestrator_next,
    orchestrator_pending,
    orchestrator_run,
    orchestrator_start,
    orchestrator_trace,
    submissions_in,
    NodeOutcome,
    OrchestratorAction,
    OrchestratorActionView,
    OrchestratorEvent,
    OrchestratorPhase,
    OrchestratorView,
    SubscriptionOrchestrator,
};
use crate::readiness::{
    gate_observe,
    gate_pending,
    gate_start,
    GateAction,
    GateOutcome,
    GateView,
    ReadinessGate,
};
use crate::settings::{Settings, SettingsView};
use crate::subscription::{NodeIdentity, NodeView, RequestView, SubscriptionRequest};

verus! {

/// Why the application did not get as far as serving.
#[derive(Clone, Copy, Debug, PartialEq, Eq, Structural)]
pub enum StartupError {
    /// The readiness gate timed out.
    TransportNotReady,
    /// The registration service refused the application.
    RegistrationFailed,
    /// The node inventory could not be read.
    DiscoveryFailed,
}

/// Why a serving application shuts down.
#[derive(Clone, Copy, Debug, PartialEq, Eq, Structural)]
pub enum ShutdownCause {
    /// It was asked to stop.
    Requested,
    /// The dispatch loop stopped.
    DispatchStopped(StopReason),
}

/// Where the application stands.
#[derive(Clone, Copy, Debug, PartialEq, Eq, Structural)]
pub enum LifecycleState {
    Initializing,
    AwaitingTransportReady,
    Registering,
    AwaitingPropagation,
    DiscoveringNodes,
    Subscribing,
    Serving,
    ShuttingDown,
    /// Startup failed; the application goes no further.
    Failed(StartupError),
}

/// What the program around the controller reports to it.
#[derive(Debug)]
pub enum LifecycleEvent {
    /// The configuration is loaded and the transport is made.
    Started,
    /// The transport was asked whether it is ready, and gave this answer.
    ReadinessObserved(bool),
    /// The registration service accepted the application.
    Registered,
    /// The registration service refused the application.
    RegistrationFailed,
    /// The wait for routes to propagate is over.
    PropagationElapsed,
    /// The node inventory holds these nodes.
    NodesListed(Vec<NodeIdentity>),
    /// The node inventory could not be read.
    NodeLookupFailed,
    /// The subscription service or the alarm service has answered.
    Subscription(OrchestratorEvent),
    /// The transport has delivered an envelope, or sent one, or failed.
    Transport(DispatchEvent),
    /// The application is asked to stop.
    StopRequested,
}

/// Mathematical value of a [`LifecycleEvent`].
pub enum LifecycleEventView {
    Started,
    ReadinessObserved(bool),
    Registered,
    RegistrationFailed,
    PropagationElapsed,
    NodesListed(Seq<NodeView>),
    NodeLookupFailed,
    Subscription(OrchestratorEvent),
    Transport(DispatchEventView),
    StopRequested,
}

impl View for LifecycleEvent {
    type V = LifecycleEventView;

    open spec fn view(&self) -> LifecycleEventView {
        match self {
            LifecycleEvent::Started => LifecycleEventView::Started,
            LifecycleEvent::ReadinessObserved(ready) => LifecycleEventView::ReadinessObserved(*ready),
            LifecycleEvent::Registered => LifecycleEventView::Registered,
            LifecycleEvent::RegistrationFailed => LifecycleEventView::RegistrationFailed,
            LifecycleEvent::PropagationElapsed => LifecycleEventView::PropagationElapsed,
            LifecycleEvent::NodesListed(nodes) => LifecycleEventView::NodesListed(
                nodes@.map_values(|node: NodeIdentity| node@),
            ),
            LifecycleEvent::NodeLookupFailed => LifecycleEventView::NodeLookupFailed,
            LifecycleEvent::Subscription(event) => LifecycleEventView::Subscription(*event),
            LifecycleEvent::Transport(event) => LifecycleEventView::Transport(event@),
            LifecycleEvent::StopRequested => LifecycleEventView::StopRequested,
        }
    }
}

/// What the controller asks of the program around it.
#[derive(Debug)]
pub enum LifecycleAction {
    /// Ask the transport now whether it is ready, and report the answer.
    ObserveReadiness,
    /// Sleep for this many milliseconds, then ask and report.
    WaitThenObserve(u64),
    /// Register the application under this name, which is also its type,
    /// with its configuration.
    Register(String),
    /// Sleep for this many milliseconds, then report that the wait is over.
    WaitForPropagation(u64),
    /// Read the node inventory and report the nodes.
    ListNodes,
    /// Submit this request to the subscription service and report the answer.
    Submit(SubscriptionRequest),
    /// Raise this alarm with the alarm service and report the answer.
    RaiseAlarm(AlarmEvent),
    /// Start serving: receive the first envelope and report it.
    Serve,
    /// Send this answer on its own transaction and report how that ended.
    Reply(MessageEnvelope),
    /// Handling a message of this type ended with this outcome: report it,
    /// release the envelope, and receive the next one.
    Handled(i32, HandlerOutcome),
    /// Stop the transport and leave.
    Shutdown(ShutdownCause),
    /// Stop the transport and leave with a status other than zero.
    Abort(StartupError),
    /// Nothing: the event reported is not one that the controller was
    /// waiting for, and was ignored.
    OutOfTurn,
}

/// Mathematical value of a [`LifecycleAction`].
pub enum LifecycleActionView {
    ObserveReadiness,
    WaitThenObserve(u64),
    Register(Seq<char>),
    WaitForPropagation(u64),
    ListNodes,
    Submit(RequestView),
    RaiseAlarm(AlarmView),
    Serve,
    Reply(EnvelopeView),
    Handled(i32, HandlerOutcome),
    Shutdown(ShutdownCause),
    Abort(StartupError),
    OutOfTurn,
}

impl View for LifecycleAction {
    type V = LifecycleActionView;

    open spec fn view(&self) -> LifecycleActionView {
        match self {
            LifecycleAction::ObserveReadiness => LifecycleActionView::ObserveReadiness,
            LifecycleAction::WaitThenObserve(ms) => LifecycleActionView::WaitThenObserve(*ms),
            LifecycleAction::Register(name) => LifecycleActionView::Register(name@),
            LifecycleAction::WaitForPropagation(ms) => LifecycleActionView::WaitForPropagation(*ms),
            LifecycleAction::ListNodes => LifecycleActionView::ListNodes,
            LifecycleAction::Submit(request) => LifecycleActionView::Submit(request@),
            LifecycleAction::RaiseAlarm(alarm) => LifecycleActionView::RaiseAlarm(alarm@),
            LifecycleAction::Serve => LifecycleActionView::Serve,
            LifecycleAction::Reply(envelope) => LifecycleActionView::Reply(envelope@),
            LifecycleAction::Handled(mtype, outcome) => LifecycleActionView::Handled(*mtype, *outcome),
            LifecycleAction::Shutdown(cause) => LifecycleActionView::Shutdown(*cause),
            LifecycleAction::Abort(error) => LifecycleActionView::Abort(*error),
            LifecycleAction::OutOfTurn => LifecycleActionView::OutOfTurn,
        }
    }
}

/// The status with which the process leaves after `action`, where the
/// action ends it: zero only when it was asked to stop.
pub open spec fn exit_status_of(action: LifecycleActionView) -> Option<i32> {
    match action {
        LifecycleActionView::Shutdown(ShutdownCause::Requested) => Some(0i32),
        LifecycleActionView::Shutdown(ShutdownCause::DispatchStopped(_)) => Some(1i32),
        LifecycleActionView::Abort(_) => Some(1i32),
        _ => None,
    }
}

/// Mathematical value of a [`LifecycleController`].
pub struct LifecycleView {
    pub settings: SettingsView,
    pub state: LifecycleState,
    pub gate: GateView,
    pub orchestrator: OrchestratorView,
    pub dispatch: DispatchView,
}

/// The controller of an application that has not started.
pub open spec fn lifecycle_start(
    settings: SettingsView,
    registry: Map<i32, Handler>,
    policy: FailurePolicy,
) -> LifecycleView {
    LifecycleView {
        settings,
        state: LifecycleState::Initializing,
        gate: gate_start(settings.poll_interval_ms, settings.max_attempts as nat),
        orchestrator: orchestrator_start(settings, Seq::empty()),
        dispatch: DispatchView {
            registry,
            counters: Map::empty(),
            phase: DispatchPhase::Receiving,
            policy,
        },
    }
}

/// The state that the application is in while its gate is `gate`.
pub open spec fn state_at_gate(gate: GateView) -> LifecycleState {
    match gate.outcome {
        None => LifecycleState::AwaitingTransportReady,
        Some(GateOutcome::Ready) => LifecycleState::Registering,
        Some(GateOutcome::TimedOut) => LifecycleState::Failed(StartupError::TransportNotReady),
    }
}

/// What the controller asks for while its gate is `gate`.
pub open spec fn answer_at_gate(settings: SettingsView, gate: GateView) -> LifecycleActionView {
    match gate_pending(gate) {
        GateAction::Observe => LifecycleActionView::ObserveReadiness,
        GateAction::WaitThenObserve(ms) => LifecycleActionView::WaitThenObserve(ms),
        GateAction::Finish(GateOutcome::Ready) => LifecycleActionView::Register(settings.app_name),
        GateAction::Finish(GateOutcome::TimedOut) => LifecycleActionView::Abort(
            StartupError::TransportNotReady,
        ),
    }
}

/// The state that the application is in while its orchestrator is in
/// `phase`.
pub open spec fn state_at_orchestrator(phase: OrchestratorPhase) -> LifecycleState {
    if phase == OrchestratorPhase::Done {
        LifecycleState::Serving
    } else {
        LifecycleState::Subscribing
    }
}

/// What the controller asks for where its orchestrator asks for `action`.
pub open spec fn orchestrator_lifted(action: OrchestratorActionView) -> LifecycleActionView {
    match action {
        OrchestratorActionView::Submit(request) => LifecycleActionView::Submit(request),
        OrchestratorActionView::RaiseAlarm(alarm) => LifecycleActionView::RaiseAlarm(alarm),
        OrchestratorActionView::Finished => LifecycleActionView::Serve,
        OrchestratorActionView::OutOfTurn => LifecycleActionView::OutOfTurn,
    }
}

/// What the controller asks for where its dispatch loop asks for `action`.
pub open spec fn dispatch_lifted(action: DispatchActionView) -> LifecycleActionView {
    match action {
        DispatchActionView::Handled(mtype, outcome) => LifecycleActionView::Handled(mtype, outcome),
        DispatchActionView::Reply(envelope) => LifecycleActionView::Reply(envelope),
        DispatchActionView::Stop(reason) => LifecycleActionView::Shutdown(
            ShutdownCause::DispatchStopped(reason),
        ),
        DispatchActionView::OutOfTurn => LifecycleActionView::OutOfTurn,
    }
}

/// The controller after `event`. An event that the controller is not waiting
/// for changes nothing.
pub open spec fn lifecycle_next(controller: LifecycleView, event: LifecycleEventView) -> LifecycleView {
    match (controller.state, event) {
        (LifecycleState::Initializing, LifecycleEventView::Started) => LifecycleView {
            state: state_at_gate(controller.gate),
            ..controller
        },
        (LifecycleState::AwaitingTransportReady, LifecycleEventView::ReadinessObserved(ready)) => {
            let gate = gate_observe(controller.gate, ready);
            LifecycleView { state: state_at_gate(gate), gate, ..controller }
        },
        (LifecycleState::Registering, LifecycleEventView::Registered) => LifecycleView {
            state: LifecycleState::AwaitingPropagation,
            ..controller
        },
        (LifecycleState::Registering, LifecycleEventView::RegistrationFailed) => LifecycleView {
            state: LifecycleState::Failed(StartupError::RegistrationFailed),
            ..controller
        },
        (LifecycleState::AwaitingPropagation, LifecycleEventView::PropagationElapsed) => LifecycleView {
            state: LifecycleState::DiscoveringNodes,
            ..controller
        },
        (LifecycleState::DiscoveringNodes, LifecycleEventView::NodesListed(nodes)) => {
            let orchestrator = orchestrator_start(controller.settings, nodes);
            LifecycleView {
                state: state_at_orchestrator(orchestrator.phase),
                orchestrator,
                ..controller
            }
        },
        (LifecycleState::DiscoveringNodes, LifecycleEventView::NodeLookupFailed) => LifecycleView {
            state: LifecycleState::Failed(StartupError::DiscoveryFailed),
            ..controller
        },
        (LifecycleState::Subscribing, LifecycleEventView::Subscription(answer)) => {
            if orchestrator_accepts(controller.orchestrator, answer) {
                let orchestrator = orchestrator_next(controller.orchestrator, answer);
                LifecycleView {
                    state: state_at_orchestrator(orchestrator.phase),
                    orchestrator,
                    ..controller
                }
            } else {
                controller
            }
        },
        (LifecycleState::Serving, LifecycleEventView::Transport(report)) => LifecycleView {
            state: if dispatch_answer(controller.dispatch, report) is Stop {
                LifecycleState::ShuttingDown
            } else {
                LifecycleState::Serving
            },
            dispatch: dispatch_next(controller.dispatch, report),
            ..controller
        },
        (LifecycleState::Serving, LifecycleEventView::StopRequested) => LifecycleView {
            state: LifecycleState::ShuttingDown,
            ..controller
        },
        _ => controller,
    }
}

/// What the controller answers to `event`.
pub open spec fn lifecycle_answer(controller: LifecycleView, event: LifecycleEventView) -> LifecycleActionView {
    match (controller.state, event) {
        (LifecycleState::Initializing, LifecycleEventView::Started) => answer_at_gate(
            controller.settings,
            controller.gate,
        ),
        (
            LifecycleState::AwaitingTransportReady,
            LifecycleEventView::ReadinessObserved(ready),
        ) => answer_at_gate(controller.settings, gate_observe(controller.gate, ready)),
        (
            LifecycleState::Registering,
            LifecycleEventView::Registered,
        ) => LifecycleActionView::WaitForPropagation(controller.settings.propagation_wait_ms),
        (LifecycleState::Registering, LifecycleEventView::RegistrationFailed) => LifecycleActionView::Abort(
            StartupError::RegistrationFailed,
        ),
        (
            LifecycleState::AwaitingPropagation,
            LifecycleEventView::PropagationElapsed,
        ) => LifecycleActionView::ListNodes,
        (LifecycleState::DiscoveringNodes, LifecycleEventView::NodesListed(nodes)) => orchestrator_lifted(
            orchestrator_pending(orchestrator_start(controller.settings, nodes)),
        ),
        (LifecycleState::DiscoveringNodes, LifecycleEventView::NodeLookupFailed) => LifecycleActionView::Abort(
            StartupError::DiscoveryFailed,
        ),
        (LifecycleState::Subscribing, LifecycleEventView::Subscription(answer)) => orchestrator_lifted(
            orchestrator_answer(controller.orchestrator, answer),
        ),
        (LifecycleState::Serving, LifecycleEventView::Transport(report)) => dispatch_lifted(
            dispatch_answer(controller.dispatch, report),
        ),
        (LifecycleState::Serving, LifecycleEventView::StopRequested) => LifecycleActionView::Shutdown(
            ShutdownCause::Requested,
        ),
        _ => LifecycleActionView::OutOfTurn,
    }
}

/// The lifecycle controller.
pub struct LifecycleController {
    settings: Settings,
    state: LifecycleState,
    gate: ReadinessGate,
    orchestrator: SubscriptionOrchestrator,
    dispatch: DispatchLoop,
}

impl View for LifecycleController {
    type V = LifecycleView;

    closed spec fn view(&self) -> LifecycleView {
        LifecycleView {
            settings: self.settings@,
            state: self.state,
            gate: self.gate@,
            orchestrator: self.orchestrator@,
            dispatch: self.dispatch@,
        }
    }
}

/// The status with which the process leaves after `action`, where the action
/// ends it.
pub fn exit_status(action: &LifecycleAction) -> (status: Option<i32>)
    ensures
        status == exit_status_of(action@),
{
    match action {
        LifecycleAction::Shutdown(ShutdownCause::Requested) => Some(0),
        LifecycleAction::Shutdown(ShutdownCause::DispatchStopped(_)) => Some(1),
        LifecycleAction::Abort(_) => Some(1),
        _ => None,
    }
}

impl LifecycleController {
    /// The controller of an application that has not started, with the
    /// handlers of `registry` for its dispatch loop.
    pub fn new(settings: Settings, registry: HandlerRegistry, policy: FailurePolicy) -> (controller:
        LifecycleController)
        ensures
            controller@ == lifecycle_start(settings@, registry@, policy),
    {
        let gate = ReadinessGate::new(settings.poll_interval_ms, settings.max_attempts);
        let orchestrator = SubscriptionOrchestrator::new(settings.clone(), Vec::new());
        let dispatch = DispatchLoop::new(registry, policy);
        assert(Seq::<NodeIdentity>::empty().map_values(|node: NodeIdentity| node@)
            =~= Seq::<NodeView>::empty());
        LifecycleController {
            settings,
            state: LifecycleState::Initializing,
            gate,
            orchestrator,
            dispatch,
        }
    }

    /// Where the application stands.
    pub fn state(&self) -> (state: LifecycleState)
        ensures
            state == self@.state,
    {
        self.state
    }

    /// The number of messages of type `mtype` handled so far.
    pub fn received(&self, mtype: i32) -> (count: u64)
        ensures
            count == crate::counters::rx_count(self@.dispatch.counters, mtype),
    {
        self.dispatch.received(mtype)
    }

    fn at_gate(&mut self) -> (action: LifecycleAction)
        ensures
            final(self)@ == (LifecycleView { state: state_at_gate(old(self)@.gate), ..old(self)@ }),
            action@ == answer_at_gate(old(self)@.settings, old(self)@.gate),
    {
        match self.gate.pending() {
            GateAction::Observe => {
                self.state = LifecycleState::AwaitingTransportReady;
                LifecycleAction::ObserveReadiness
            },
            GateAction::WaitThenObserve(ms) => {
                self.state = LifecycleState::AwaitingTransportReady;
                LifecycleAction::WaitThenObserve(ms)
            },
            GateAction::Finish(GateOutcome::Ready) => {
                self.state = LifecycleState::Registering;
                LifecycleAction::Register(self.settings.app_name.clone())
            },
            GateAction::Finish(GateOutcome::TimedOut) => {
                self.state = LifecycleState::Failed(StartupError::TransportNotReady);
                LifecycleAction::Abort(StartupError::TransportNotReady)
            },
        }
    }

    fn at_orchestrator(&mut self, action: OrchestratorAction) -> (lifted: LifecycleAction)
        ensures
            final(self)@ == (LifecycleView {
                state: state_at_orchestrator(old(self)@.orchestrator.phase),
                ..old(self)@
            }),
            lifted@ == orchestrator_lifted(action@),
    {
        self.state = match self.orchestrator.phase() {
            OrchestratorPhase::Done => LifecycleState::Serving,
            _ => LifecycleState::Subscribing,
        };
        match action {
            OrchestratorAction::Submit(request) => LifecycleAction::Submit(request),
            OrchestratorAction::RaiseAlarm(alarm) => LifecycleAction::RaiseAlarm(alarm),
            OrchestratorAction::Finished => LifecycleAction::Serve,
            OrchestratorAction::OutOfTurn => LifecycleAction::OutOfTurn,
        }
    }

    /// Takes what happened and says what to do next.
    pub fn step(&mut self, event: LifecycleEvent) -> (action: LifecycleAction)
        ensures
            final(self)@ == lifecycle_next(old(self)@, event@),
            action@ == lifecycle_answer(old(self)@, event@),
    {
        match self.state {
            LifecycleState::Initializing => match event {
                LifecycleEvent::Started => self.at_gate(),
                _ => LifecycleAction::OutOfTurn,
            },
            LifecycleState::AwaitingTransportReady => match event {
                LifecycleEvent::ReadinessObserved(ready) => {
                    let _ = self.gate.observe(ready);
                    self.at_gate()
                },
                _ => LifecycleAction::OutOfTurn,
            },
            LifecycleState::Registering => match event {
                LifecycleEvent::Registered => {
                    self.state = LifecycleState::AwaitingPropagation;
                    LifecycleAction::WaitForPropagation(self.settings.propagation_wait_ms)
                },
                LifecycleEvent::RegistrationFailed => {
                    self.state = LifecycleState::Failed(StartupError::RegistrationFailed);
                    LifecycleAction::Abort(StartupError::RegistrationFailed)
                },
                _ => LifecycleAction::OutOfTurn,
            },
            LifecycleState::AwaitingPropagation => match event {
                LifecycleEvent::PropagationElapsed => {
                    self.state = LifecycleState::DiscoveringNodes;
                    LifecycleAction::ListNodes
                },
                _ => LifecycleAction::OutOfTurn,
            },
            LifecycleState::DiscoveringNodes => match event {
                LifecycleEvent::NodesListed(nodes) => {
                    self.orchestrator = SubscriptionOrchestrator::new(self.settings.clone(), nodes);
                    let first = self.orchestrator.pending();
                    self.at_orchestrator(first)
                },
                LifecycleEvent::NodeLookupFailed => {
                    self.state = LifecycleState::Failed(StartupError::DiscoveryFailed);
                    LifecycleAction::Abort(StartupError::DiscoveryFailed)
                },
                _ => LifecycleAction::OutOfTurn,
            },
            LifecycleState::Subscribing => match event {
                LifecycleEvent::Subscription(answer) => {
                    let next = self.orchestrator.step(answer);
                    match next {
                        OrchestratorAction::OutOfTurn => LifecycleAction::OutOfTurn,
                        _ => self.at_orchestrator(next),
                    }
                },
                _ => LifecycleAction::OutOfTurn,
            },
            LifecycleState::Serving => match event {
                LifecycleEvent::Transport(report) => {
                    match self.dispatch.step(report) {
                        DispatchAction::Handled(mtype, outcome) => LifecycleAction::Handled(
                            mtype,
                            outcome,
                        ),
                        DispatchAction::Reply(envelope) => LifecycleAction::Reply(envelope),
                        DispatchAction::Stop(reason) => {
                            self.state = LifecycleState::ShuttingDown;
                            LifecycleAction::Shutdown(ShutdownCause::DispatchStopped(reason))
                        },
                        DispatchAction::OutOfTurn => LifecycleAction::OutOfTurn,
                    }
                },
                LifecycleEvent::StopRequested => {
                    self.state = LifecycleState::ShuttingDown;
                    LifecycleAction::Shutdown(ShutdownCause::Requested)
                },
                _ => LifecycleAction::OutOfTurn,
            },
            LifecycleState::ShuttingDown => LifecycleAction::OutOfTurn,
            LifecycleState::Failed(_) => LifecycleAction::OutOfTurn,
        }
    }
}

/// The controller after a sequence of events, first to last.
pub open spec fn lifecycle_run(controller: LifecycleView, events: Seq<LifecycleEventView>) -> LifecycleView
    decreases events.len(),
{
    if events.len() == 0 {
        controller
    } else {
        lifecycle_run(lifecycle_next(controller, events[0]), events.drop_first())
    }
}

/// What the controller answers to each event of a sequence, in order.
pub open spec fn lifecycle_trace(controller: LifecycleView, events: Seq<LifecycleEventView>) -> Seq<
    LifecycleActionView,
>
    decreases events.len(),
{
    if events.len() == 0 {
        Seq::empty()
    } else {
        seq![lifecycle_answer(controller, events[0])] + lifecycle_trace(
            lifecycle_next(controller, events[0]),
            events.drop_first(),
        )
    }
}

/// The requests that the controller asked to submit among `actions`, in
/// order.
pub open spec fn submissions_asked(actions: Seq<LifecycleActionView>) -> Seq<RequestView>
    decreases actions.len(),
{
    if actions.len() == 0 {
        Seq::empty()
    } else {
        let rest = submissions_asked(actions.drop_first());
        match actions[0] {
            LifecycleActionView::Submit(request) => seq![request] + rest,
            _ => rest,
        }
    }
}

/// The alarms that the controller asked to raise among `actions`, in order.
pub open spec fn alarms_asked(actions: Seq<LifecycleActionView>) -> Seq<AlarmView>
    decreases actions.len(),
{
    if actions.len() == 0 {
        Seq::empty()
    } else {
        let rest = alarms_asked(actions.drop_first());
        match actions[0] {
            LifecycleActionView::RaiseAlarm(alarm) => seq![alarm] + rest,
            _ => rest,
        }
    }
}

/// What is reported to the controller while the application starts: the
/// start, `misses` observations of a transport that is not ready and one of
/// a transport that is, the registration, the end of the wait, the nodes,
/// and the answers of the services for each node.
pub open spec fn startup_events(misses: nat, nodes: Seq<NodeView>, outcomes: Seq<NodeOutcome>) -> Seq<
    LifecycleEventView,
> {
    seq![LifecycleEventView::Started] + Seq::new(
        misses,
        |i: int| LifecycleEventView::ReadinessObserved(false),
    ) + seq![
        LifecycleEventView::ReadinessObserved(true),
        LifecycleEventView::Registered,
        LifecycleEventView::PropagationElapsed,
        LifecycleEventView::NodesListed(nodes),
    ] + events_of(outcomes).map_values(
        |answer: OrchestratorEvent| LifecycleEventView::Subscription(answer),
    )
}

proof fn lemma_lifecycle_concat(
    controller: LifecycleView,
    first: Seq<LifecycleEventView>,
    second: Seq<LifecycleEventView>,
)
    ensures
        lifecycle_run(controller, first + second) == lifecycle_run(
            lifecycle_run(controller, first),
            second,
        ),
        lifecycle_trace(controller, first + second) == lifecycle_trace(controller, first)
            + lifecycle_trace(lifecycle_run(controller, first), second),
    decreases first.len(),
{
    if first.len() == 0 {
        assert(first + second =~= second);
        assert(lifecycle_trace(controller, first) + lifecycle_trace(controller, second)
            =~= lifecycle_trace(controller, second));
    } else {
        let all = first + second;
        assert(all[0] == first[0]);
        assert(all.drop_first() =~= first.drop_first() + second);
        lemma_lifecycle_concat(lifecycle_next(controller, first[0]), first.drop_first(), second);
        assert(lifecycle_trace(controller, all) =~= lifecycle_trace(controller, first)
            + lifecycle_trace(lifecycle_run(controller, first), second));
    }
}

proof fn lemma_asked_concat(first: Seq<LifecycleActionView>, second: Seq<LifecycleActionView>)
    ensures
        submissions_asked(first + second) == submissions_asked(first) + submissions_asked(second),
        alarms_asked(first + second) == alarms_asked(first) + alarms_asked(second),
    decreases first.len(),
{
    if first.len() == 0 {
        assert(first + second =~= second);
        assert(submissions_asked(first) + submissions_asked(second) =~= submissions_asked(second));
        assert(alarms_asked(first) + alarms_asked(second) =~= alarms_asked(second));
    } else {
        let all = first + second;
        assert(all[0] == first[0]);
        assert(all.drop_first() =~= first.drop_first() + second);
        lemma_asked_concat(first.drop_first(), second);
        assert(submissions_asked(all) =~= submissions_asked(first) + submissions_asked(second));
        assert(alarms_asked(all) =~= alarms_asked(first) + alarms_asked(second));
    }
}

proof fn lemma_lifecycle_one(controller: LifecycleView, event: LifecycleEventView)
    ensures
        lifecycle_run(controller, seq![event]) == lifecycle_next(controller, event),
        lifecycle_trace(controller, seq![event]) == seq![lifecycle_answer(controller, event)],
{
    let events = seq![event];
    assert(events[0] == event);
    assert(events.drop_first() =~= Seq::<LifecycleEventView>::empty());
    let next = lifecycle_next(controller, event);
    assert(lifecycle_run(next, events.drop_first()) == next);
    assert(lifecycle_trace(next, events.drop_first()) =~= Seq::<LifecycleActionView>::empty());
    assert(lifecycle_trace(controller, events) =~= seq![lifecycle_answer(controller, event)]);
}

proof fn lemma_asked_one(action: LifecycleActionView)
    ensures
        submissions_asked(seq![action]) == (match action {
            LifecycleActionView::Submit(request) => seq![request],
            _ => Seq::empty(),
        }),
        alarms_asked(seq![action]) == (match action {
            LifecycleActionView::RaiseAlarm(alarm) => seq![alarm],
            _ => Seq::empty(),
        }),
{
    let actions = seq![action];
    assert(actions[0] == action);
    assert(actions.drop_first() =~= Seq::<LifecycleActionView>::empty());
    assert(submissions_asked(actions.drop_first()) =~= Seq::<RequestView>::empty());
    assert(alarms_asked(actions.drop_first()) =~= Seq::<AlarmView>::empty());
    match action {
        LifecycleActionView::Submit(request) => {
            assert(submissions_asked(actions) =~= seq![request]);
        },
        LifecycleActionView::RaiseAlarm(alarm) => {
            assert(alarms_asked(actions) =~= seq![alarm]);
        },
        _ => {},
    }
}

proof fn lemma_lifted_calls(calls: Seq<OrchestratorActionView>)
    ensures
        submissions_asked(calls.map_values(|call: OrchestratorActionView| orchestrator_lifted(call)))
            == submissions_in(calls),
        alarms_asked(calls.map_values(|call: OrchestratorActionView| orchestrator_lifted(call)))
            == alarms_in(calls),
    decreases calls.len(),
{
    let lifted = calls.map_values(|call: OrchestratorActionView| orchestrator_lifted(call));
    if calls.len() > 0 {
        let rest = calls.drop_first();
        assert(lifted.drop_first() =~= rest.map_values(
            |call: OrchestratorActionView| orchestrator_lifted(call),
        ));
        assert(lifted[0] == orchestrator_lifted(calls[0]));
        lemma_lifted_calls(rest);
    }
}

proof fn lemma_subscribing_follows_orchestrator(
    controller: LifecycleView,
    answers: Seq<OrchestratorEvent>,
)
    requires
        controller.state == state_at_orchestrator(controller.orchestrator.phase),
    ensures
        lifecycle_trace(
            controller,
            answers.map_values(|answer: OrchestratorEvent| LifecycleEventView::Subscription(answer)),
        ) == orchestrator_trace(controller.orchestrator, answers).map_values(
            |call: OrchestratorActionView| orchestrator_lifted(call),
        ),
        lifecycle_run(
            controller,
            answers.map_values(|answer: OrchestratorEvent| LifecycleEventView::Subscription(answer)),
        ) == (LifecycleView {
            state: state_at_orchestrator(
                orchestrator_run(controller.orchestrator, answers).phase,
            ),
            orchestrator: orchestrator_run(controller.orchestrator, answers),
            ..controller
        }),
    decreases answers.len(),
{
    let events = answers.map_values(
        |answer: OrchestratorEvent| LifecycleEventView::Subscription(answer),
    );
    if answers.len() == 0 {
        assert(lifecycle_trace(controller, events) =~= orchestrator_trace(
            controller.orchestrator,
            answers,
        ).map_values(|call: OrchestratorActionView| orchestrator_lifted(call)));
    } else {
        let rest = answers.drop_first();
        assert(events[0] == LifecycleEventView::Subscription(answers[0]));
        assert(events.drop_first() =~= rest.map_values(
            |answer: OrchestratorEvent| LifecycleEventView::Subscription(answer),
        ));
        let next = lifecycle_next(controller, events[0]);
        assert(next.orchestrator == orchestrator_next(controller.orchestrator, answers[0]));
        lemma_subscribing_follows_orchestrator(next, rest);
        assert(lifecycle_trace(controller, events) =~= orchestrator_trace(
            controller.orchestrator,
            answers,
        ).map_values(|call: OrchestratorActionView| orchestrator_lifted(call)));
    }
}

/// From the discovery of the nodes on, the controller asks for exactly the
/// calls of one pass of the orchestrator over the nodes: one submission for
/// every node, one alarm for every node whose subscription failed. When the
/// services have answered for the last node, the application is serving.
pub proof fn lemma_discovery_leads_to_serving(
    controller: LifecycleView,
    nodes: Seq<NodeView>,
    outcomes: Seq<NodeOutcome>,
)
    requires
        controller.state == LifecycleState::DiscoveringNodes,
        outcomes.len() == nodes.len(),
    ensures
        ({
            let events = seq![LifecycleEventView::NodesListed(nodes)] + events_of(
                outcomes,
            ).map_values(|answer: OrchestratorEvent| LifecycleEventView::Subscription(answer));
            &&& lifecycle_run(controller, events).state == LifecycleState::Serving
            &&& lifecycle_run(controller, events).dispatch == controller.dispatch
            &&& submissions_asked(lifecycle_trace(controller, events)) == expected_submissions(
                controller.settings,
                nodes,
            )
            &&& alarms_asked(lifecycle_trace(controller, events)) == expected_alarms(nodes, outcomes)
        }),
{
    let listed = seq![LifecycleEventView::NodesListed(nodes)];
    let answers = events_of(outcomes);
    let told = answers.map_values(
        |answer: OrchestratorEvent| LifecycleEventView::Subscription(answer),
    );
    let start = orchestrator_start(controller.settings, nodes);
    let after = lifecycle_next(controller, LifecycleEventView::NodesListed(nodes));
    lemma_lifecycle_one(controller, LifecycleEventView::NodesListed(nodes));
    lemma_lifecycle_concat(controller, listed, told);
    lemma_subscribing_follows_orchestrator(after, answers);
    lemma_subscribe_all_calls(controller.settings, nodes, outcomes);
    let calls = calls_from(start, answers);
    assert(lifecycle_trace(controller, listed + told) =~= calls.map_values(
        |call: OrchestratorActionView| orchestrator_lifted(call),
    ));
    lemma_lifted_calls(calls);
}

proof fn lemma_misses_keep_waiting(controller: LifecycleView, misses: nat)
    requires
        controller.state == LifecycleState::AwaitingTransportReady,
        controller.gate.outcome is None,
        controller.gate.misses + misses < controller.gate.max_attempts,
    ensures
        ({
            let events = Seq::new(misses, |i: int| LifecycleEventView::ReadinessObserved(false));
            &&& lifecycle_run(controller, events) == (LifecycleView {
                gate: GateView { misses: controller.gate.misses + misses, ..controller.gate },
                ..controller
            })
            &&& submissions_asked(lifecycle_trace(controller, events)) == Seq::<RequestView>::empty()
            &&& alarms_asked(lifecycle_trace(controller, events)) == Seq::<AlarmView>::empty()
        }),
    decreases misses,
{
    let events = Seq::new(misses, |i: int| LifecycleEventView::ReadinessObserved(false));
    if misses > 0 {
        let fewer = Seq::new(
            (misses - 1) as nat,
            |i: int| LifecycleEventView::ReadinessObserved(false),
        );
        assert(events.drop_first() =~= fewer);
        let next = lifecycle_next(controller, events[0]);
        lemma_misses_keep_waiting(next, (misses - 1) as nat);
        let head = seq![lifecycle_answer(controller, events[0])];
        lemma_asked_concat(head, lifecycle_trace(next, fewer));
        lemma_asked_one(lifecycle_answer(controller, events[0]));
    }
}

proof fn lemma_three_events(
    controller: LifecycleView,
    first: LifecycleEventView,
    second: LifecycleEventView,
    third: LifecycleEventView,
)
    ensures
        lifecycle_run(controller, seq![first, second, third]) == lifecycle_next(
            lifecycle_next(lifecycle_next(controller, first), second),
            third,
        ),
        lifecycle_trace(controller, seq![first, second, third]) == seq![
            lifecycle_answer(controller, first),
            lifecycle_answer(lifecycle_next(controller, first), second),
            lifecycle_answer(lifecycle_next(lifecycle_next(controller, first), second), third),
        ],
{
    let one = lifecycle_next(controller, first);
    let two = lifecycle_next(one, second);
    assert(seq![first, second, third] =~= seq![first] + (seq![second] + seq![third]));
    lemma_lifecycle_concat(controller, seq![first], seq![second] + seq![third]);
    lemma_lifecycle_one(controller, first);
    lemma_lifecycle_concat(one, seq![second], seq![third]);
    lemma_lifecycle_one(one, second);
    lemma_lifecycle_one(two, third);
    assert(seq![lifecycle_answer(controller, first)] + (seq![lifecycle_answer(one, second)] + seq![
        lifecycle_answer(two, third),
    ]) =~= seq![
        lifecycle_answer(controller, first),
        lifecycle_answer(one, second),
        lifecycle_answer(two, third),
    ]);
}

proof fn lemma_asked_none(first: LifecycleActionView, second: LifecycleActionView, third: LifecycleActionView)
    requires
        !(first is Submit) && !(first is RaiseAlarm),
        !(second is Submit) && !(second is RaiseAlarm),
        !(third is Submit) && !(third is RaiseAlarm),
    ensures
        submissions_asked(seq![first, second, third]) == Seq::<RequestView>::empty(),
        alarms_asked(seq![first, second, third]) == Seq::<AlarmView>::empty(),
{
    assert(seq![first, second, third] =~= seq![first] + (seq![second] + seq![third]));
    lemma_asked_concat(seq![first], seq![second] + seq![third]);
    lemma_asked_concat(seq![second], seq![third]);
    lemma_asked_one(first);
    lemma_asked_one(second);
    lemma_asked_one(third);
}

/// An application whose transport is ready before its readiness gate gives
/// up, whose registration is accepted and whose node inventory can be read,
/// comes to serve. Until then it has asked for one submission for every
/// node of the inventory and one alarm for every node whose subscription
/// failed, and for no other: with an inventory without nodes, for none at
/// all.
pub proof fn lemma_startup_reaches_serving(
    settings: SettingsView,
    registry: Map<i32, Handler>,
    policy: FailurePolicy,
    misses: nat,
    nodes: Seq<NodeView>,
    outcomes: Seq<NodeOutcome>,
)
    requires
        misses < settings.max_attempts,
        outcomes.len() == nodes.len(),
    ensures
        ({
            let start = lifecycle_start(settings, registry, policy);
            let events = startup_events(misses, nodes, outcomes);
            &&& lifecycle_run(start, events).state == LifecycleState::Serving
            &&& lifecycle_run(start, events).dispatch == start.dispatch
            &&& submissions_asked(lifecycle_trace(start, events)) == expected_submissions(
                settings,
                nodes,
            )
            &&& alarms_asked(lifecycle_trace(start, events)) == expected_alarms(nodes, outcomes)
            &&& nodes.len() == 0 ==> submissions_asked(lifecycle_trace(start, events)).len() == 0
                && alarms_asked(lifecycle_trace(start, events)).len() == 0
        }),
{
    let start = lifecycle_start(settings, registry, policy);
    let started = seq![LifecycleEventView::Started];
    let missed = Seq::new(misses, |i: int| LifecycleEventView::ReadinessObserved(false));
    let ready = LifecycleEventView::ReadinessObserved(true);
    let readied = seq![
        ready,
        LifecycleEventView::Registered,
        LifecycleEventView::PropagationElapsed,
    ];
    let listed = seq![LifecycleEventView::NodesListed(nodes)];
    let told = events_of(outcomes).map_values(
        |answer: OrchestratorEvent| LifecycleEventView::Subscription(answer),
    );
    let events = startup_events(misses, nodes, outcomes);
    assert(events =~= started + (missed + (readied + (listed + told))));

    let waiting = lifecycle_next(start, LifecycleEventView::Started);
    lemma_lifecycle_one(start, LifecycleEventView::Started);
    let first_call = seq![lifecycle_answer(start, LifecycleEventView::Started)];
    lemma_asked_one(lifecycle_answer(start, LifecycleEventView::Started));

    lemma_misses_keep_waiting(waiting, misses);
    let missing = lifecycle_run(waiting, missed);

    lemma_three_events(
        missing,
        ready,
        LifecycleEventView::Registered,
        LifecycleEventView::PropagationElapsed,
    );
    let discovering = lifecycle_run(missing, readied);
    assert(discovering.state == LifecycleState::DiscoveringNodes);
    assert(discovering.settings == settings);
    let registering = lifecycle_next(missing, ready);
    let propagating = lifecycle_next(registering, LifecycleEventView::Registered);
    lemma_asked_none(
        lifecycle_answer(missing, ready),
        lifecycle_answer(registering, LifecycleEventView::Registered),
        lifecycle_answer(propagating, LifecycleEventView::PropagationElapsed),
    );

    lemma_discovery_leads_to_serving(discovering, nodes, outcomes);

    lemma_lifecycle_concat(discovering, listed, told);
    lemma_lifecycle_concat(missing, readied, listed + told);
    lemma_lifecycle_concat(waiting, missed, readied + (listed + told));
    lemma_lifecycle_concat(start, started, missed + (readied + (listed + told)));

    let tail = lifecycle_trace(discovering, listed + told);
    let from_ready = lifecycle_trace(missing, readied) + tail;
    let from_waiting = lifecycle_trace(waiting, missed) + from_ready;
    lemma_asked_concat(lifecycle_trace(missing, readied), tail);
    lemma_asked_concat(lifecycle_trace(waiting, missed), from_ready);
    lemma_asked_concat(first_call, from_waiting);
    assert(submissions_asked(lifecycle_trace(start, events)) =~= expected_submissions(
        settings,
        nodes,
    ));
    assert(alarms_asked(lifecycle_trace(start, events)) =~= expected_alarms(nodes, outcomes));
}

} // verus!
