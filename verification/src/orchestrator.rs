//! The subscription orchestrator: one subscription for every discovered
//! node, and an alarm for every node whose subscription failed.
//!
//! The orchestrator makes no call itself. It answers with the call to make,
//! is told how the call ended, and answers with the next one. A failure never
//! stops it: after the alarm for a node, raised or not, it goes on to the
//! next node.

use vstd::prelude::*;
use crate::alarm::{build_subscription_alarm, subscription_alarm, AlarmEvent, AlarmView};
use crate::settings::{Settings, SettingsView};
use crate::subscription::{
    build_subscription,
    subscription_request,
    NodeIdentity,
    NodeView,
    RequestView,
    SubscriptionRequest,
};

verus! {

/// How a call that the orchestrator asked for has ended.
#[derive(Clone, Copy, Debug, PartialEq, Eq, Structural)]
pub enum OrchestratorEvent {
    /// The subscription service accepted the request.
    SubmitSucceeded,
    /// The subscription service refused the request, or could not be reached.
    SubmitFailed,
    /// The alarm service took the alarm.
    AlarmRaised,
    /// The alarm service did not take the alarm.
    AlarmFailed,
}

/// Which call the orchestrator is waiting for.
#[derive(Clone, Copy, Debug, PartialEq, Eq, Structural)]
pub enum OrchestratorPhase {
    /// The subscription of the current node.
    Submitting,
    /// The alarm for the current node.
    Alarming,
    /// None: every node was gone through.
    Done,
}

/// The call that the orchestrator asks for.
#[derive(Debug)]
pub enum OrchestratorAction {
    /// Submit this request to the subscription service.
    Submit(SubscriptionRequest),
    /// Raise this alarm with the alarm service.
    RaiseAlarm(AlarmEvent),
    /// Nothing: every node was gone through.
    Finished,
    /// Nothing: the event reported does not answer the call that was asked
    /// for, and was ignored.
    OutOfTurn,
}

/// Mathematical value of an [`OrchestratorAction`].
pub enum OrchestratorActionView {
    Submit(RequestView),
    RaiseAlarm(AlarmView),
    Finished,
    OutOfTurn,
}

impl View for OrchestratorAction {
    type V = OrchestratorActionView;

    open spec fn view(&self) -> OrchestratorActionView {
        match self {
            OrchestratorAction::Submit(request) => OrchestratorActionView::Submit(request@),
            OrchestratorAction::RaiseAlarm(alarm) => OrchestratorActionView::RaiseAlarm(alarm@),
            OrchestratorAction::Finished => OrchestratorActionView::Finished,
            OrchestratorAction::OutOfTurn => OrchestratorActionView::OutOfTurn,
        }
    }
}

/// Mathematical value of a [`SubscriptionOrchestrator`].
pub struct OrchestratorView {
    pub settings: SettingsView,
    pub nodes: Seq<NodeView>,
    /// Position of the current node; the number of nodes once all are done.
    pub index: nat,
    pub phase: OrchestratorPhase,
}

impl OrchestratorView {
    /// The orchestrator is done when, and only when, it is past the last
    /// node.
    pub open spec fn well_formed(self) -> bool {
        &&& self.index <= self.nodes.len()
        &&& self.phase == OrchestratorPhase::Done <==> self.index == self.nodes.len()
    }
}

/// The orchestrator before its first call.
pub open spec fn orchestrator_start(settings: SettingsView, nodes: Seq<NodeView>) -> OrchestratorView {
    OrchestratorView {
        settings,
        nodes,
        index: 0,
        phase: if nodes.len() == 0 {
            OrchestratorPhase::Done
        } else {
            OrchestratorPhase::Submitting
        },
    }
}

/// The call that an orchestrator in this state is waiting for.
pub open spec fn orchestrator_pending(state: OrchestratorView) -> OrchestratorActionView {
    match state.phase {
        OrchestratorPhase::Submitting => OrchestratorActionView::Submit(
            subscription_request(state.settings, state.nodes[state.index as int].inventory_name),
        ),
        OrchestratorPhase::Alarming => OrchestratorActionView::RaiseAlarm(
            subscription_alarm(state.nodes[state.index as int].inventory_name),
        ),
        OrchestratorPhase::Done => OrchestratorActionView::Finished,
    }
}

/// True when `event` reports the end of the call that the orchestrator is
/// waiting for.
pub open spec fn orchestrator_accepts(state: OrchestratorView, event: OrchestratorEvent) -> bool {
    match state.phase {
        OrchestratorPhase::Submitting => event == OrchestratorEvent::SubmitSucceeded || event
            == OrchestratorEvent::SubmitFailed,
        OrchestratorPhase::Alarming => event == OrchestratorEvent::AlarmRaised || event
            == OrchestratorEvent::AlarmFailed,
        OrchestratorPhase::Done => false,
    }
}

/// The orchestrator turned to the node after the current one.
pub open spec fn orchestrator_advance(state: OrchestratorView) -> OrchestratorView {
    OrchestratorView {
        index: state.index + 1,
        phase: if state.index + 1 >= state.nodes.len() {
            OrchestratorPhase::Done
        } else {
            OrchestratorPhase::Submitting
        },
        ..state
    }
}

/// The orchestrator after `event`. A failed subscription leads to the alarm
/// for the same node; every other accepted event leads to the next node. An
/// event that is not accepted changes nothing.
pub open spec fn orchestrator_next(state: OrchestratorView, event: OrchestratorEvent) -> OrchestratorView {
    if !orchestrator_accepts(state, event) {
        state
    } else if event == OrchestratorEvent::SubmitFailed {
        OrchestratorView { phase: OrchestratorPhase::Alarming, ..state }
    } else {
        orchestrator_advance(state)
    }
}

/// What the orchestrator answers to `event`.
pub open spec fn orchestrator_answer(state: OrchestratorView, event: OrchestratorEvent) -> OrchestratorActionView {
    if orchestrator_accepts(state, event) {
        orchestrator_pending(orchestrator_next(state, event))
    } else {
        OrchestratorActionView::OutOfTurn
    }
}

/// The orchestrator after a sequence of events, first to last.
pub open spec fn orchestrator_run(state: OrchestratorView, events: Seq<OrchestratorEvent>) -> OrchestratorView
    decreases events.len(),
{
    if events.len() == 0 {
        state
    } else {
        orchestrator_run(orchestrator_next(state, events[0]), events.drop_first())
    }
}

/// What the orchestrator answers to each event of a sequence, in order.
pub open spec fn orchestrator_trace(state: OrchestratorView, events: Seq<OrchestratorEvent>) -> Seq<
    OrchestratorActionView,
>
    decreases events.len(),
{
    if events.len() == 0 {
        Seq::empty()
    } else {
        seq![orchestrator_answer(state, events[0])] + orchestrator_trace(
            orchestrator_next(state, events[0]),
            events.drop_first(),
        )
    }
}

/// How the subscription service and the alarm service answered for one node.
#[derive(Clone, Copy, Debug, PartialEq, Eq, Structural)]
pub enum NodeOutcome {
    /// The subscription was accepted.
    Subscribed,
    /// The subscription failed and the alarm was taken.
    AlarmRaised,
    /// The subscription failed and the alarm was not taken.
    AlarmFailed,
}

/// The events that the orchestrator is told for a node with this outcome.
pub open spec fn node_events(outcome: NodeOutcome) -> Seq<OrchestratorEvent> {
    match outcome {
        NodeOutcome::Subscribed => seq![OrchestratorEvent::SubmitSucceeded],
        NodeOutcome::AlarmRaised => seq![
            OrchestratorEvent::SubmitFailed,
            OrchestratorEvent::AlarmRaised,
        ],
        NodeOutcome::AlarmFailed => seq![
            OrchestratorEvent::SubmitFailed,
            OrchestratorEvent::AlarmFailed,
        ],
    }
}

/// The events that the orchestrator is told for nodes with these outcomes.
pub open spec fn events_of(outcomes: Seq<NodeOutcome>) -> Seq<OrchestratorEvent>
    decreases outcomes.len(),
{
    if outcomes.len() == 0 {
        Seq::empty()
    } else {
        node_events(outcomes[0]) + events_of(outcomes.drop_first())
    }
}

/// Every call that an orchestrator in `state` asks for while it is told
/// `events`: the one it is waiting for, then its answers.
pub open spec fn calls_from(state: OrchestratorView, events: Seq<OrchestratorEvent>) -> Seq<
    OrchestratorActionView,
> {
    seq![orchestrator_pending(state)] + orchestrator_trace(state, events)
}

/// Every call of one pass over `nodes`, where the services answer with
/// `outcomes`, node by node.
pub open spec fn subscribe_all_calls(
    settings: SettingsView,
    nodes: Seq<NodeView>,
    outcomes: Seq<NodeOutcome>,
) -> Seq<OrchestratorActionView> {
    calls_from(orchestrator_start(settings, nodes), events_of(outcomes))
}

/// The requests submitted among `calls`, in order.
pub open spec fn submissions_in(calls: Seq<OrchestratorActionView>) -> Seq<RequestView>
    decreases calls.len(),
{
    if calls.len() == 0 {
        Seq::empty()
    } else {
        let rest = submissions_in(calls.drop_first());
        match calls[0] {
            OrchestratorActionView::Submit(request) => seq![request] + rest,
            _ => rest,
        }
    }
}

/// The alarms raised among `calls`, in order.
pub open spec fn alarms_in(calls: Seq<OrchestratorActionView>) -> Seq<AlarmView>
    decreases calls.len(),
{
    if calls.len() == 0 {
        Seq::empty()
    } else {
        let rest = alarms_in(calls.drop_first());
        match calls[0] {
            OrchestratorActionView::RaiseAlarm(alarm) => seq![alarm] + rest,
            _ => rest,
        }
    }
}

/// One request for every node, in the order of the nodes.
pub open spec fn expected_submissions(settings: SettingsView, nodes: Seq<NodeView>) -> Seq<RequestView> {
    Seq::new(nodes.len(), |i: int| subscription_request(settings, nodes[i].inventory_name))
}

/// One alarm for every node whose subscription failed, in the order of the
/// nodes.
pub open spec fn expected_alarms(nodes: Seq<NodeView>, outcomes: Seq<NodeOutcome>) -> Seq<AlarmView>
    decreases nodes.len(),
{
    if nodes.len() == 0 || outcomes.len() == 0 {
        Seq::empty()
    } else {
        let rest = expected_alarms(nodes.drop_first(), outcomes.drop_first());
        if outcomes[0] == NodeOutcome::Subscribed {
            rest
        } else {
            seq![subscription_alarm(nodes[0].inventory_name)] + rest
        }
    }
}

/// The number of nodes whose subscription failed.
pub open spec fn failures_in(outcomes: Seq<NodeOutcome>) -> nat
    decreases outcomes.len(),
{
    if outcomes.len() == 0 {
        0
    } else if outcomes[0] == NodeOutcome::Subscribed {
        failures_in(outcomes.drop_first())
    } else {
        1 + failures_in(outcomes.drop_first())
    }
}

proof fn lemma_run_concat(
    state: OrchestratorView,
    first: Seq<OrchestratorEvent>,
    second: Seq<OrchestratorEvent>,
)
    ensures
        orchestrator_run(state, first + second) == orchestrator_run(
            orchestrator_run(state, first),
            second,
        ),
        orchestrator_trace(state, first + second) == orchestrator_trace(state, first)
            + orchestrator_trace(orchestrator_run(state, first), second),
    decreases first.len(),
{
    if first.len() == 0 {
        assert(first + second =~= second);
        assert(orchestrator_trace(state, first) + orchestrator_trace(state, second)
            =~= orchestrator_trace(state, second));
    } else {
        let all = first + second;
        assert(all[0] == first[0]);
        assert(all.drop_first() =~= first.drop_first() + second);
        let next = orchestrator_next(state, first[0]);
        lemma_run_concat(next, first.drop_first(), second);
        assert(orchestrator_trace(state, all) =~= orchestrator_trace(state, first)
            + orchestrator_trace(orchestrator_run(state, first), second));
    }
}

proof fn lemma_run_one(state: OrchestratorView, event: OrchestratorEvent)
    ensures
        orchestrator_run(state, seq![event]) == orchestrator_next(state, event),
        orchestrator_trace(state, seq![event]) == seq![orchestrator_answer(state, event)],
{
    let events = seq![event];
    assert(events[0] == event);
    assert(events.drop_first() =~= Seq::<OrchestratorEvent>::empty());
    let next = orchestrator_next(state, event);
    assert(orchestrator_run(next, events.drop_first()) == next);
    assert(orchestrator_trace(next, events.drop_first()) =~= Seq::<OrchestratorActionView>::empty());
    assert(orchestrator_trace(state, events) =~= seq![orchestrator_answer(state, event)]);
}

proof fn lemma_run_two(state: OrchestratorView, first: OrchestratorEvent, second: OrchestratorEvent)
    ensures
        orchestrator_run(state, seq![first, second]) == orchestrator_next(
            orchestrator_next(state, first),
            second,
        ),
        orchestrator_trace(state, seq![first, second]) == seq![
            orchestrator_answer(state, first),
            orchestrator_answer(orchestrator_next(state, first), second),
        ],
{
    assert(seq![first, second] =~= seq![first] + seq![second]);
    lemma_run_concat(state, seq![first], seq![second]);
    lemma_run_one(state, first);
    lemma_run_one(orchestrator_next(state, first), second);
    assert(seq![orchestrator_answer(state, first)] + seq![
        orchestrator_answer(orchestrator_next(state, first), second),
    ] =~= seq![
        orchestrator_answer(state, first),
        orchestrator_answer(orchestrator_next(state, first), second),
    ]);
}

proof fn lemma_calls_concat(first: Seq<OrchestratorActionView>, second: Seq<OrchestratorActionView>)
    ensures
        submissions_in(first + second) == submissions_in(first) + submissions_in(second),
        alarms_in(first + second) == alarms_in(first) + alarms_in(second),
    decreases first.len(),
{
    if first.len() == 0 {
        assert(first + second =~= second);
        assert(submissions_in(first) + submissions_in(second) =~= submissions_in(second));
        assert(alarms_in(first) + alarms_in(second) =~= alarms_in(second));
    } else {
        let all = first + second;
        assert(all[0] == first[0]);
        assert(all.drop_first() =~= first.drop_first() + second);
        lemma_calls_concat(first.drop_first(), second);
        assert(submissions_in(all) =~= submissions_in(first) + submissions_in(second));
        assert(alarms_in(all) =~= alarms_in(first) + alarms_in(second));
    }
}

proof fn lemma_calls_one(call: OrchestratorActionView)
    ensures
        submissions_in(seq![call]) == (match call {
            OrchestratorActionView::Submit(request) => seq![request],
            _ => Seq::empty(),
        }),
        alarms_in(seq![call]) == (match call {
            OrchestratorActionView::RaiseAlarm(alarm) => seq![alarm],
            _ => Seq::empty(),
        }),
{
    let calls = seq![call];
    assert(calls[0] == call);
    assert(calls.drop_first() =~= Seq::<OrchestratorActionView>::empty());
    assert(submissions_in(calls.drop_first()) =~= Seq::<RequestView>::empty());
    assert(alarms_in(calls.drop_first()) =~= Seq::<AlarmView>::empty());
    match call {
        OrchestratorActionView::Submit(request) => {
            assert(submissions_in(calls) =~= seq![request]);
        },
        OrchestratorActionView::RaiseAlarm(alarm) => {
            assert(alarms_in(calls) =~= seq![alarm]);
        },
        _ => {},
    }
}

proof fn lemma_pass_from(state: OrchestratorView, outcomes: Seq<NodeOutcome>)
    requires
        state.well_formed(),
        state.phase != OrchestratorPhase::Alarming,
        state.index + outcomes.len() == state.nodes.len(),
    ensures
        orchestrator_run(state, events_of(outcomes)).phase == OrchestratorPhase::Done,
        submissions_in(calls_from(state, events_of(outcomes))) == expected_submissions(
            state.settings,
            state.nodes.subrange(state.index as int, state.nodes.len() as int),
        ),
        alarms_in(calls_from(state, events_of(outcomes))) == expected_alarms(
            state.nodes.subrange(state.index as int, state.nodes.len() as int),
            outcomes,
        ),
        alarms_in(calls_from(state, events_of(outcomes))).len() == failures_in(outcomes),
    decreases outcomes.len(),
{
    let len = state.nodes.len() as int;
    let here = state.index as int;
    let remaining = state.nodes.subrange(here, len);
    if outcomes.len() == 0 {
        let calls = calls_from(state, events_of(outcomes));
        assert(calls =~= seq![OrchestratorActionView::Finished]);
        lemma_calls_one(OrchestratorActionView::Finished);
        assert(expected_submissions(state.settings, remaining) =~= Seq::<RequestView>::empty());
    } else {
        let node_name = state.nodes[here].inventory_name;
        let request = subscription_request(state.settings, node_name);
        let alarm = subscription_alarm(node_name);
        let first = node_events(outcomes[0]);
        let rest = outcomes.drop_first();
        let later = events_of(rest);
        let after = orchestrator_run(state, first);
        lemma_run_concat(state, first, later);
        match outcomes[0] {
            NodeOutcome::Subscribed => {
                lemma_run_one(state, OrchestratorEvent::SubmitSucceeded);
            },
            NodeOutcome::AlarmRaised => {
                lemma_run_two(state, OrchestratorEvent::SubmitFailed, OrchestratorEvent::AlarmRaised);
            },
            NodeOutcome::AlarmFailed => {
                lemma_run_two(state, OrchestratorEvent::SubmitFailed, OrchestratorEvent::AlarmFailed);
            },
        }
        assert(after == orchestrator_advance(state));
        lemma_pass_from(after, rest);
        let head: Seq<OrchestratorActionView> = if outcomes[0] == NodeOutcome::Subscribed {
            seq![OrchestratorActionView::Submit(request)]
        } else {
            seq![OrchestratorActionView::Submit(request), OrchestratorActionView::RaiseAlarm(alarm)]
        };
        let tail = calls_from(after, later);
        let calls = calls_from(state, events_of(outcomes));
        assert(calls =~= head + tail);
        lemma_calls_concat(head, tail);
        lemma_calls_one(OrchestratorActionView::Submit(request));
        lemma_calls_one(OrchestratorActionView::RaiseAlarm(alarm));
        if outcomes[0] != NodeOutcome::Subscribed {
            assert(head =~= seq![OrchestratorActionView::Submit(request)] + seq![
                OrchestratorActionView::RaiseAlarm(alarm),
            ]);
            lemma_calls_concat(
                seq![OrchestratorActionView::Submit(request)],
                seq![OrchestratorActionView::RaiseAlarm(alarm)],
            );
        }
        let following = state.nodes.subrange(here + 1, len);
        assert(remaining.drop_first() =~= following);
        assert(remaining[0] == state.nodes[here]);
        assert(after.nodes.subrange(after.index as int, len) =~= following);
        assert(expected_submissions(state.settings, remaining) =~= seq![request]
            + expected_submissions(state.settings, following));
        assert(submissions_in(head) =~= seq![request]);
    }
}

/// One pass over `nodes` submits exactly one request for every node, in the
/// order of the nodes and whatever the services answer, and raises exactly
/// one alarm for every node whose subscription failed, with that node as
/// its source, and none for any other. A failure, of a subscription or of an
/// alarm, never keeps the pass from reaching its end.
pub proof fn lemma_subscribe_all_calls(
    settings: SettingsView,
    nodes: Seq<NodeView>,
    outcomes: Seq<NodeOutcome>,
)
    requires
        outcomes.len() == nodes.len(),
    ensures
        orchestrator_run(orchestrator_start(settings, nodes), events_of(outcomes)).phase
            == OrchestratorPhase::Done,
        submissions_in(subscribe_all_calls(settings, nodes, outcomes)) == expected_submissions(
            settings,
            nodes,
        ),
        submissions_in(subscribe_all_calls(settings, nodes, outcomes)).len() == nodes.len(),
        alarms_in(subscribe_all_calls(settings, nodes, outcomes)) == expected_alarms(nodes, outcomes),
        alarms_in(subscribe_all_calls(settings, nodes, outcomes)).len() == failures_in(outcomes),
{
    let start = orchestrator_start(settings, nodes);
    lemma_pass_from(start, outcomes);
    assert(nodes.subrange(0, nodes.len() as int) =~= nodes);
}

/// A pass keeps nothing from the pass before it: two passes over the same
/// nodes submit the same requests, whatever the services answer, and raise
/// the same alarms when the same subscriptions fail.
pub proof fn lemma_second_pass_repeats_first(
    settings: SettingsView,
    nodes: Seq<NodeView>,
    first: Seq<NodeOutcome>,
    second: Seq<NodeOutcome>,
)
    requires
        first.len() == nodes.len(),
        second.len() == nodes.len(),
    ensures
        submissions_in(subscribe_all_calls(settings, nodes, first)) == submissions_in(
            subscribe_all_calls(settings, nodes, second),
        ),
        (forall|i: int|
            0 <= i < nodes.len() ==> ((first[i] == NodeOutcome::Subscribed) <==> (second[i]
                == NodeOutcome::Subscribed))) ==> alarms_in(
            subscribe_all_calls(settings, nodes, first),
        ) == alarms_in(subscribe_all_calls(settings, nodes, second)),
{
    lemma_subscribe_all_calls(settings, nodes, first);
    lemma_subscribe_all_calls(settings, nodes, second);
    if forall|i: int|
        0 <= i < nodes.len() ==> ((first[i] == NodeOutcome::Subscribed) <==> (second[i]
            == NodeOutcome::Subscribed)) {
        lemma_same_failures_same_alarms(nodes, first, second);
    }
}

proof fn lemma_same_failures_same_alarms(
    nodes: Seq<NodeView>,
    first: Seq<NodeOutcome>,
    second: Seq<NodeOutcome>,
)
    requires
        first.len() == nodes.len(),
        second.len() == nodes.len(),
        forall|i: int|
            0 <= i < nodes.len() ==> ((first[i] == NodeOutcome::Subscribed) <==> (second[i]
                == NodeOutcome::Subscribed)),
    ensures
        expected_alarms(nodes, first) == expected_alarms(nodes, second),
    decreases nodes.len(),
{
    if nodes.len() > 0 {
        let first_rest = first.drop_first();
        let second_rest = second.drop_first();
        assert forall|i: int| 0 <= i < nodes.drop_first().len() implies ((first_rest[i]
            == NodeOutcome::Subscribed) <==> (second_rest[i] == NodeOutcome::Subscribed)) by {
            assert(first_rest[i] == first[i + 1]);
            assert(second_rest[i] == second[i + 1]);
        }
        lemma_same_failures_same_alarms(nodes.drop_first(), first_rest, second_rest);
    }
}

/// Goes through the discovered nodes, one call at a time.
pub struct SubscriptionOrchestrator {
    settings: Settings,
    nodes: Vec<NodeIdentity>,
    index: usize,
    /// True while the alarm for the current node is awaited.
    alarming: bool,
}

impl View for SubscriptionOrchestrator {
    type V = OrchestratorView;

    closed spec fn view(&self) -> OrchestratorView {
        OrchestratorView {
            settings: self.settings@,
            nodes: self.nodes@.map_values(|node: NodeIdentity| node@),
            index: self.index as nat,
            phase: if self.index >= self.nodes.len() {
                OrchestratorPhase::Done
            } else if self.alarming {
                OrchestratorPhase::Alarming
            } else {
                OrchestratorPhase::Submitting
            },
        }
    }
}

impl SubscriptionOrchestrator {
    #[verifier::type_invariant]
    spec fn inv(self) -> bool {
        &&& self.index <= self.nodes.len()
        &&& self.alarming ==> self.index < self.nodes.len()
    }

    /// An orchestrator for `nodes`, in their order.
    pub fn new(settings: Settings, nodes: Vec<NodeIdentity>) -> (orchestrator: SubscriptionOrchestrator)
        ensures
            orchestrator@ == orchestrator_start(
                settings@,
                nodes@.map_values(|node: NodeIdentity| node@),
            ),
            orchestrator@.well_formed(),
    {
        SubscriptionOrchestrator { settings, nodes, index: 0, alarming: false }
    }

    /// Which call the orchestrator is waiting for.
    pub fn phase(&self) -> (phase: OrchestratorPhase)
        ensures
            phase == self@.phase,
    {
        if self.index >= self.nodes.len() {
            OrchestratorPhase::Done
        } else if self.alarming {
            OrchestratorPhase::Alarming
        } else {
            OrchestratorPhase::Submitting
        }
    }

    /// The call that the orchestrator is waiting for.
    pub fn pending(&self) -> (action: OrchestratorAction)
        ensures
            action@ == orchestrator_pending(self@),
    {
        proof {
            use_type_invariant(self);
        }
        match self.phase() {
            OrchestratorPhase::Submitting => {
                let node = &self.nodes[self.index];
                OrchestratorAction::Submit(
                    build_subscription(&self.settings, node.inventory_name.as_str()),
                )
            },
            OrchestratorPhase::Alarming => {
                let node = &self.nodes[self.index];
                OrchestratorAction::RaiseAlarm(
                    build_subscription_alarm(node.inventory_name.as_str()),
                )
            },
            OrchestratorPhase::Done => OrchestratorAction::Finished,
        }
    }

    /// Takes the end of the call that was asked for and answers with the
    /// next call.
    pub fn step(&mut self, event: OrchestratorEvent) -> (action: OrchestratorAction)
        ensures
            old(self)@.well_formed(),
            final(self)@ == orchestrator_next(old(self)@, event),
            action@ == orchestrator_answer(old(self)@, event),
    {
        proof {
            use_type_invariant(&*self);
        }
        let accepted = match self.phase() {
            OrchestratorPhase::Submitting => match event {
                OrchestratorEvent::SubmitSucceeded => true,
                OrchestratorEvent::SubmitFailed => true,
                _ => false,
            },
            OrchestratorPhase::Alarming => match event {
                OrchestratorEvent::AlarmRaised => true,
                OrchestratorEvent::AlarmFailed => true,
                _ => false,
            },
            OrchestratorPhase::Done => false,
        };
        if !accepted {
            return OrchestratorAction::OutOfTurn;
        }
        match event {
            OrchestratorEvent::SubmitFailed => {
                self.alarming = true;
            },
            _ => {
                self.alarming = false;
                self.index = self.index + 1;
            },
        }
        self.pending()
    }
}

} // verus!
