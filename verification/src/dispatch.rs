//! The dispatch loop: every envelope received goes to the handler that is
//! registered for its type, one envelope at a time.
//!
//! The loop neither receives nor sends. It is told what the transport
//! delivered and answers with what to do: send an answer, go on to the next
//! envelope, or stop.

use vstd::prelude::*;
use crate::counters::{rx_count, rx_counted, RxCounters};
use crate::envelope::{EnvelopeView, MessageEnvelope};
use crate::handlers::{
    handler_result,
    health_check_reply,
    invoke,
    registered,
    FailureReason,
    Handler,
    HandlerOutcome,
    HandlerRegistry,
    Handling,
};

verus! {

/// What the loop does when a handler fails. A message type without a handler
/// never stops the loop, whatever the policy.
#[derive(Clone, Copy, Debug, PartialEq, Eq, Structural)]
pub enum FailurePolicy {
    /// The loop stops.
    StopLoop,
    /// The failure is reported and the loop goes on.
    KeepLooping,
}

/// Where the loop stands.
#[derive(Clone, Copy, Debug, PartialEq, Eq, Structural)]
pub enum DispatchPhase {
    /// No envelope is being handled.
    Receiving,
    /// The answer to a message of this type is being sent: the handler of
    /// that message holds the transport.
    Replying(i32),
    /// The loop has stopped for good.
    Stopped,
}

/// What the transport reports to the loop.
#[derive(Debug)]
pub enum DispatchEvent {
    /// The next envelope has arrived.
    Received(MessageEnvelope),
    /// Receiving failed, and no envelope will arrive any more.
    ReceiveFailed,
    /// The answer that the loop asked for was sent.
    ReplySent,
    /// The answer that the loop asked for could not be sent.
    ReplyFailed,
}

/// Mathematical value of a [`DispatchEvent`].
pub enum DispatchEventView {
    Received(EnvelopeView),
    ReceiveFailed,
    ReplySent,
    ReplyFailed,
}

impl View for DispatchEvent {
    type V = DispatchEventView;

    open spec fn view(&self) -> DispatchEventView {
        match self {
            DispatchEvent::Received(envelope) => DispatchEventView::Received(envelope@),
            DispatchEvent::ReceiveFailed => DispatchEventView::ReceiveFailed,
            DispatchEvent::ReplySent => DispatchEventView::ReplySent,
            DispatchEvent::ReplyFailed => DispatchEventView::ReplyFailed,
        }
    }
}

/// Why the loop stopped.
#[derive(Clone, Copy, Debug, PartialEq, Eq, Structural)]
pub enum StopReason {
    /// Receiving failed.
    ReceiveFailed,
    /// Handling a message of this type failed for this reason.
    HandlerFailed(i32, FailureReason),
}

/// What the loop asks of its caller.
#[derive(Debug)]
pub enum DispatchAction {
    /// Handling a message of this type ended with this outcome: report it,
    /// release the envelope, and receive the next one.
    Handled(i32, HandlerOutcome),
    /// Send this answer on its own transaction, and report how that ended.
    Reply(MessageEnvelope),
    /// Stop the transport: the loop has ended.
    Stop(StopReason),
    /// Nothing: the event reported is not one that the loop was waiting for,
    /// and was ignored.
    OutOfTurn,
}

/// Mathematical value of a [`DispatchAction`].
pub enum DispatchActionView {
    Handled(i32, HandlerOutcome),
    Reply(EnvelopeView),
    Stop(StopReason),
    OutOfTurn,
}

impl View for DispatchAction {
    type V = DispatchActionView;

    open spec fn view(&self) -> DispatchActionView {
        match self {
            DispatchAction::Handled(mtype, outcome) => DispatchActionView::Handled(*mtype, *outcome),
            DispatchAction::Reply(envelope) => DispatchActionView::Reply(envelope@),
            DispatchAction::Stop(reason) => DispatchActionView::Stop(*reason),
            DispatchAction::OutOfTurn => DispatchActionView::OutOfTurn,
        }
    }
}

/// Mathematical value of a [`DispatchLoop`].
pub struct DispatchView {
    pub registry: Map<i32, Handler>,
    pub counters: Map<i32, u64>,
    pub phase: DispatchPhase,
    pub policy: FailurePolicy,
}

/// True when a handling that ended with `outcome` stops the loop.
pub open spec fn is_fatal(policy: FailurePolicy, outcome: HandlerOutcome) -> bool {
    match outcome {
        HandlerOutcome::Success => false,
        HandlerOutcome::Failure(reason) => reason != FailureReason::Unhandled && policy
            == FailurePolicy::StopLoop,
    }
}

/// The loop after the handling of a message of type `mtype` has ended with
/// `outcome`: the message is counted, whatever the outcome, and the loop
/// receives again unless the outcome stops it.
pub open spec fn dispatch_completed(state: DispatchView, mtype: i32, outcome: HandlerOutcome) -> DispatchView {
    DispatchView {
        counters: rx_counted(state.counters, mtype),
        phase: if is_fatal(state.policy, outcome) {
            DispatchPhase::Stopped
        } else {
            DispatchPhase::Receiving
        },
        ..state
    }
}

/// What the loop asks for after the handling of a message of type `mtype`
/// has ended with `outcome`.
pub open spec fn completion_answer(policy: FailurePolicy, mtype: i32, outcome: HandlerOutcome) -> DispatchActionView {
    match outcome {
        HandlerOutcome::Failure(reason) if is_fatal(policy, outcome) => DispatchActionView::Stop(
            StopReason::HandlerFailed(mtype, reason),
        ),
        _ => DispatchActionView::Handled(mtype, outcome),
    }
}

/// The loop after `event`.
pub open spec fn dispatch_next(state: DispatchView, event: DispatchEventView) -> DispatchView {
    match (state.phase, event) {
        (DispatchPhase::Receiving, DispatchEventView::Received(envelope)) => match registered(
            state.registry,
            envelope.mtype,
        ) {
            None => dispatch_completed(
                state,
                envelope.mtype,
                HandlerOutcome::Failure(FailureReason::Unhandled),
            ),
            Some(handler) => match handler_result(handler, envelope).1 {
                Handling::Complete(outcome) => dispatch_completed(state, envelope.mtype, outcome),
                Handling::ReplyRequired => DispatchView {
                    phase: DispatchPhase::Replying(envelope.mtype),
                    ..state
                },
            },
        },
        (DispatchPhase::Receiving, DispatchEventView::ReceiveFailed) => DispatchView {
            phase: DispatchPhase::Stopped,
            ..state
        },
        (DispatchPhase::Replying(mtype), DispatchEventView::ReplySent) => dispatch_completed(
            state,
            mtype,
            HandlerOutcome::Success,
        ),
        (DispatchPhase::Replying(mtype), DispatchEventView::ReplyFailed) => dispatch_completed(
            state,
            mtype,
            HandlerOutcome::Failure(FailureReason::SendFailed),
        ),
        _ => state,
    }
}

/// What the loop answers to `event`.
pub open spec fn dispatch_answer(state: DispatchView, event: DispatchEventView) -> DispatchActionView {
    match (state.phase, event) {
        (DispatchPhase::Receiving, DispatchEventView::Received(envelope)) => match registered(
            state.registry,
            envelope.mtype,
        ) {
            None => completion_answer(
                state.policy,
                envelope.mtype,
                HandlerOutcome::Failure(FailureReason::Unhandled),
            ),
            Some(handler) => match handler_result(handler, envelope).1 {
                Handling::Complete(outcome) => completion_answer(state.policy, envelope.mtype, outcome),
                Handling::ReplyRequired => DispatchActionView::Reply(
                    handler_result(handler, envelope).0,
                ),
            },
        },
        (DispatchPhase::Receiving, DispatchEventView::ReceiveFailed) => DispatchActionView::Stop(
            StopReason::ReceiveFailed,
        ),
        (DispatchPhase::Replying(mtype), DispatchEventView::ReplySent) => completion_answer(
            state.policy,
            mtype,
            HandlerOutcome::Success,
        ),
        (DispatchPhase::Replying(mtype), DispatchEventView::ReplyFailed) => completion_answer(
            state.policy,
            mtype,
            HandlerOutcome::Failure(FailureReason::SendFailed),
        ),
        _ => DispatchActionView::OutOfTurn,
    }
}

/// The dispatch loop.
pub struct DispatchLoop {
    registry: HandlerRegistry,
    counters: RxCounters,
    phase: DispatchPhase,
    policy: FailurePolicy,
}

impl View for DispatchLoop {
    type V = DispatchView;

    closed spec fn view(&self) -> DispatchView {
        DispatchView {
            registry: self.registry@,
            counters: self.counters@,
            phase: self.phase,
            policy: self.policy,
        }
    }
}

impl DispatchLoop {
    /// A loop over `registry` that has received nothing yet.
    pub fn new(registry: HandlerRegistry, policy: FailurePolicy) -> (dispatch: DispatchLoop)
        ensures
            dispatch@ == (DispatchView {
                registry: registry@,
                counters: Map::<i32, u64>::empty(),
                phase: DispatchPhase::Receiving,
                policy,
            }),
    {
        DispatchLoop { registry, counters: RxCounters::new(), phase: DispatchPhase::Receiving, policy }
    }

    /// Where the loop stands.
    pub fn phase(&self) -> (phase: DispatchPhase)
        ensures
            phase == self@.phase,
    {
        self.phase
    }

    /// The number of messages of type `mtype` handled so far.
    pub fn received(&self, mtype: i32) -> (count: u64)
        ensures
            count == rx_count(self@.counters, mtype),
    {
        self.counters.count(mtype)
    }

    fn complete(&mut self, mtype: i32, outcome: HandlerOutcome) -> (action: DispatchAction)
        ensures
            final(self)@ == dispatch_completed(old(self)@, mtype, outcome),
            action@ == completion_answer(old(self)@.policy, mtype, outcome),
    {
        self.counters.increment(mtype);
        match outcome {
            HandlerOutcome::Success => {
                self.phase = DispatchPhase::Receiving;
                DispatchAction::Handled(mtype, outcome)
            },
            HandlerOutcome::Failure(reason) => {
                let stops = match reason {
                    FailureReason::Unhandled => false,
                    FailureReason::SendFailed => match self.policy {
                        FailurePolicy::StopLoop => true,
                        FailurePolicy::KeepLooping => false,
                    },
                };
                if stops {
                    self.phase = DispatchPhase::Stopped;
                    DispatchAction::Stop(StopReason::HandlerFailed(mtype, reason))
                } else {
                    self.phase = DispatchPhase::Receiving;
                    DispatchAction::Handled(mtype, outcome)
                }
            },
        }
    }

    /// Takes what the transport reports and says what to do next.
    pub fn step(&mut self, event: DispatchEvent) -> (action: DispatchAction)
        ensures
            final(self)@ == dispatch_next(old(self)@, event@),
            action@ == dispatch_answer(old(self)@, event@),
    {
        match self.phase {
            DispatchPhase::Receiving => match event {
                DispatchEvent::Received(envelope) => {
                    let mut envelope = envelope;
                    let mtype = envelope.mtype;
                    match self.registry.lookup(mtype) {
                        None => self.complete(
                            mtype,
                            HandlerOutcome::Failure(FailureReason::Unhandled),
                        ),
                        Some(handler) => match invoke(handler, &mut envelope) {
                            Handling::Complete(outcome) => self.complete(mtype, outcome),
                            Handling::ReplyRequired => {
                                self.phase = DispatchPhase::Replying(mtype);
                                DispatchAction::Reply(envelope)
                            },
                        },
                    }
                },
                DispatchEvent::ReceiveFailed => {
                    self.phase = DispatchPhase::Stopped;
                    DispatchAction::Stop(StopReason::ReceiveFailed)
                },
                _ => DispatchAction::OutOfTurn,
            },
            DispatchPhase::Replying(mtype) => match event {
                DispatchEvent::ReplySent => self.complete(mtype, HandlerOutcome::Success),
                DispatchEvent::ReplyFailed => self.complete(
                    mtype,
                    HandlerOutcome::Failure(FailureReason::SendFailed),
                ),
                _ => DispatchAction::OutOfTurn,
            },
            DispatchPhase::Stopped => DispatchAction::OutOfTurn,
        }
    }
}

/// A health-check request is answered by exactly one reply: the loop asks
/// for the answer to be sent on the transaction of the request, with the
/// acknowledgement as payload, and handles nothing else until it is told how
/// the sending ended. Once the answer is sent the request is counted and the
/// loop receives again.
pub proof fn lemma_health_check_round_trip(state: DispatchView, request: EnvelopeView)
    requires
        state.phase == DispatchPhase::Receiving,
        registered(state.registry, request.mtype) == Some(Handler::HealthCheck),
    ensures
        dispatch_answer(state, DispatchEventView::Received(request)) == DispatchActionView::Reply(
            health_check_reply(request),
        ),
        dispatch_next(state, DispatchEventView::Received(request)) == (DispatchView {
            phase: DispatchPhase::Replying(request.mtype),
            ..state
        }),
        dispatch_answer(
            dispatch_next(state, DispatchEventView::Received(request)),
            DispatchEventView::ReplySent,
        ) == DispatchActionView::Handled(request.mtype, HandlerOutcome::Success),
        dispatch_next(
            dispatch_next(state, DispatchEventView::Received(request)),
            DispatchEventView::ReplySent,
        ) == (DispatchView { counters: rx_counted(state.counters, request.mtype), ..state }),
{
}

/// A message of a type without a handler goes to no handler: it is reported
/// as unhandled, raises the counter of its own type and of no other, and
/// leaves the loop receiving.
pub proof fn lemma_unhandled_type_is_counted(state: DispatchView, envelope: EnvelopeView, other: i32)
    requires
        state.phase == DispatchPhase::Receiving,
        !state.registry.contains_key(envelope.mtype),
    ensures
        dispatch_answer(state, DispatchEventView::Received(envelope)) == DispatchActionView::Handled(
            envelope.mtype,
            HandlerOutcome::Failure(FailureReason::Unhandled),
        ),
        dispatch_next(state, DispatchEventView::Received(envelope)) == (DispatchView {
            counters: rx_counted(state.counters, envelope.mtype),
            ..state
        }),
        other != envelope.mtype ==> rx_count(
            dispatch_next(state, DispatchEventView::Received(envelope)).counters,
            other,
        ) == rx_count(state.counters, other),
        rx_count(state.counters, envelope.mtype) < u64::MAX ==> rx_count(
            dispatch_next(state, DispatchEventView::Received(envelope)).counters,
            envelope.mtype,
        ) == rx_count(state.counters, envelope.mtype) + 1,
{
}

/// While the answer to one message is being sent, no other message is
/// handled: an envelope reported then is refused and changes nothing, so the
/// transport is never held for two messages at once.
pub proof fn lemma_one_handler_at_a_time(state: DispatchView, envelope: EnvelopeView)
    requires
        state.phase is Replying,
    ensures
        dispatch_next(state, DispatchEventView::Received(envelope)) == state,
        dispatch_answer(state, DispatchEventView::Received(envelope)) == DispatchActionView::OutOfTurn,
{
}

/// The loop after a sequence of events, first to last.
pub open spec fn dispatch_run(state: DispatchView, events: Seq<DispatchEventView>) -> DispatchView
    decreases events.len(),
{
    if events.len() == 0 {
        state
    } else {
        dispatch_run(dispatch_next(state, events[0]), events.drop_first())
    }
}

/// What the loop answers to each event of a sequence, in order.
pub open spec fn dispatch_trace(state: DispatchView, events: Seq<DispatchEventView>) -> Seq<
    DispatchActionView,
>
    decreases events.len(),
{
    if events.len() == 0 {
        Seq::empty()
    } else {
        seq![dispatch_answer(state, events[0])] + dispatch_trace(
            dispatch_next(state, events[0]),
            events.drop_first(),
        )
    }
}

/// An envelope as the transport delivers it, with what the transport will
/// say if it is asked to send an answer to it.
pub struct Delivery {
    pub envelope: EnvelopeView,
    pub reply_sent: bool,
}

/// True when the handler registered for the type of `envelope` answers it.
pub open spec fn needs_reply(registry: Map<i32, Handler>, envelope: EnvelopeView) -> bool {
    match registered(registry, envelope.mtype) {
        Some(handler) => handler_result(handler, envelope).1 == Handling::ReplyRequired,
        None => false,
    }
}

/// How the handling of `delivery` ends.
pub open spec fn delivery_outcome(registry: Map<i32, Handler>, delivery: Delivery) -> HandlerOutcome {
    match registered(registry, delivery.envelope.mtype) {
        None => HandlerOutcome::Failure(FailureReason::Unhandled),
        Some(handler) => match handler_result(handler, delivery.envelope).1 {
            Handling::Complete(outcome) => outcome,
            Handling::ReplyRequired => if delivery.reply_sent {
                HandlerOutcome::Success
            } else {
                HandlerOutcome::Failure(FailureReason::SendFailed)
            },
        },
    }
}

/// The events that the loop is told for `delivery`.
pub open spec fn delivery_events(registry: Map<i32, Handler>, delivery: Delivery) -> Seq<
    DispatchEventView,
> {
    if needs_reply(registry, delivery.envelope) {
        seq![
            DispatchEventView::Received(delivery.envelope),
            if delivery.reply_sent {
                DispatchEventView::ReplySent
            } else {
                DispatchEventView::ReplyFailed
            },
        ]
    } else {
        seq![DispatchEventView::Received(delivery.envelope)]
    }
}

/// The events that the loop is told for `deliveries`, in their order.
pub open spec fn deliveries_events(registry: Map<i32, Handler>, deliveries: Seq<Delivery>) -> Seq<
    DispatchEventView,
>
    decreases deliveries.len(),
{
    if deliveries.len() == 0 {
        Seq::empty()
    } else {
        delivery_events(registry, deliveries[0]) + deliveries_events(
            registry,
            deliveries.drop_first(),
        )
    }
}

/// The handlings that ended among `actions`, in order: the message type and
/// the outcome of each.
pub open spec fn completions_in(actions: Seq<DispatchActionView>) -> Seq<(i32, HandlerOutcome)>
    decreases actions.len(),
{
    if actions.len() == 0 {
        Seq::empty()
    } else {
        let rest = completions_in(actions.drop_first());
        match actions[0] {
            DispatchActionView::Handled(mtype, outcome) => seq![(mtype, outcome)] + rest,
            DispatchActionView::Stop(StopReason::HandlerFailed(mtype, reason)) => seq![
                (mtype, HandlerOutcome::Failure(reason)),
            ] + rest,
            _ => rest,
        }
    }
}

/// One handling for every delivery, in the order of the deliveries.
pub open spec fn expected_completions(registry: Map<i32, Handler>, deliveries: Seq<Delivery>) -> Seq<
    (i32, HandlerOutcome),
> {
    Seq::new(
        deliveries.len(),
        |i: int| (deliveries[i].envelope.mtype, delivery_outcome(registry, deliveries[i])),
    )
}

proof fn lemma_dispatch_concat(
    state: DispatchView,
    first: Seq<DispatchEventView>,
    second: Seq<DispatchEventView>,
)
    ensures
        dispatch_run(state, first + second) == dispatch_run(dispatch_run(state, first), second),
        dispatch_trace(state, first + second) == dispatch_trace(state, first) + dispatch_trace(
            dispatch_run(state, first),
            second,
        ),
    decreases first.len(),
{
    if first.len() == 0 {
        assert(first + second =~= second);
        assert(dispatch_trace(state, first) + dispatch_trace(state, second) =~= dispatch_trace(
            state,
            second,
        ));
    } else {
        let all = first + second;
        assert(all[0] == first[0]);
        assert(all.drop_first() =~= first.drop_first() + second);
        lemma_dispatch_concat(dispatch_next(state, first[0]), first.drop_first(), second);
        assert(dispatch_trace(state, all) =~= dispatch_trace(state, first) + dispatch_trace(
            dispatch_run(state, first),
            second,
        ));
    }
}

proof fn lemma_dispatch_one(state: DispatchView, event: DispatchEventView)
    ensures
        dispatch_run(state, seq![event]) == dispatch_next(state, event),
        dispatch_trace(state, seq![event]) == seq![dispatch_answer(state, event)],
{
    let events = seq![event];
    assert(events[0] == event);
    assert(events.drop_first() =~= Seq::<DispatchEventView>::empty());
    let next = dispatch_next(state, event);
    assert(dispatch_run(next, events.drop_first()) == next);
    assert(dispatch_trace(next, events.drop_first()) =~= Seq::<DispatchActionView>::empty());
    assert(dispatch_trace(state, events) =~= seq![dispatch_answer(state, event)]);
}

proof fn lemma_dispatch_two(state: DispatchView, first: DispatchEventView, second: DispatchEventView)
    ensures
        dispatch_run(state, seq![first, second]) == dispatch_next(
            dispatch_next(state, first),
            second,
        ),
        dispatch_trace(state, seq![first, second]) == seq![
            dispatch_answer(state, first),
            dispatch_answer(dispatch_next(state, first), second),
        ],
{
    assert(seq![first, second] =~= seq![first] + seq![second]);
    lemma_dispatch_concat(state, seq![first], seq![second]);
    lemma_dispatch_one(state, first);
    lemma_dispatch_one(dispatch_next(state, first), second);
    assert(seq![dispatch_answer(state, first)] + seq![
        dispatch_answer(dispatch_next(state, first), second),
    ] =~= seq![
        dispatch_answer(state, first),
        dispatch_answer(dispatch_next(state, first), second),
    ]);
}

proof fn lemma_completions_concat(first: Seq<DispatchActionView>, second: Seq<DispatchActionView>)
    ensures
        completions_in(first + second) == completions_in(first) + completions_in(second),
    decreases first.len(),
{
    if first.len() == 0 {
        assert(first + second =~= second);
        assert(completions_in(first) + completions_in(second) =~= completions_in(second));
    } else {
        let all = first + second;
        assert(all[0] == first[0]);
        assert(all.drop_first() =~= first.drop_first() + second);
        lemma_completions_concat(first.drop_first(), second);
        assert(completions_in(all) =~= completions_in(first) + completions_in(second));
    }
}

proof fn lemma_completions_one(action: DispatchActionView)
    ensures
        completions_in(seq![action]) == (match action {
            DispatchActionView::Handled(mtype, outcome) => seq![(mtype, outcome)],
            DispatchActionView::Stop(StopReason::HandlerFailed(mtype, reason)) => seq![
                (mtype, HandlerOutcome::Failure(reason)),
            ],
            _ => Seq::empty(),
        }),
{
    let actions = seq![action];
    assert(actions[0] == action);
    assert(actions.drop_first() =~= Seq::<DispatchActionView>::empty());
    assert(completions_in(actions.drop_first()) =~= Seq::<(i32, HandlerOutcome)>::empty());
    match action {
        DispatchActionView::Handled(mtype, outcome) => {
            assert(completions_in(actions) =~= seq![(mtype, outcome)]);
        },
        DispatchActionView::Stop(StopReason::HandlerFailed(mtype, reason)) => {
            assert(completions_in(actions) =~= seq![(mtype, HandlerOutcome::Failure(reason))]);
        },
        _ => {},
    }
}

/// Envelopes are handled strictly in the order of their arrival: as long as
/// no handling stops the loop, the handlings that end are those of the
/// deliveries, one for each and in their order, and the loop is receiving
/// again after the last.
pub proof fn lemma_handled_in_arrival_order(state: DispatchView, deliveries: Seq<Delivery>)
    requires
        state.phase == DispatchPhase::Receiving,
        forall|i: int|
            0 <= i < deliveries.len() ==> !is_fatal(
                state.policy,
                #[trigger] delivery_outcome(state.registry, deliveries[i]),
            ),
    ensures
        completions_in(dispatch_trace(state, deliveries_events(state.registry, deliveries)))
            == expected_completions(state.registry, deliveries),
        dispatch_run(state, deliveries_events(state.registry, deliveries)).phase
            == DispatchPhase::Receiving,
        dispatch_run(state, deliveries_events(state.registry, deliveries)).registry
            == state.registry,
        dispatch_run(state, deliveries_events(state.registry, deliveries)).policy == state.policy,
    decreases deliveries.len(),
{
    let registry = state.registry;
    if deliveries.len() == 0 {
        assert(expected_completions(registry, deliveries) =~= Seq::<(i32, HandlerOutcome)>::empty());
    } else {
        let delivery = deliveries[0];
        let rest = deliveries.drop_first();
        let first = delivery_events(registry, delivery);
        let later = deliveries_events(registry, rest);
        let mtype = delivery.envelope.mtype;
        let outcome = delivery_outcome(registry, delivery);
        assert(!is_fatal(state.policy, outcome));
        lemma_dispatch_concat(state, first, later);
        let received = DispatchEventView::Received(delivery.envelope);
        let head = dispatch_trace(state, first);
        if needs_reply(registry, delivery.envelope) {
            let sent = if delivery.reply_sent {
                DispatchEventView::ReplySent
            } else {
                DispatchEventView::ReplyFailed
            };
            lemma_dispatch_two(state, received, sent);
            let reply = dispatch_answer(state, received);
            assert(head =~= seq![reply] + seq![DispatchActionView::Handled(mtype, outcome)]);
            lemma_completions_concat(seq![reply], seq![DispatchActionView::Handled(mtype, outcome)]);
            lemma_completions_one(reply);
            lemma_completions_one(DispatchActionView::Handled(mtype, outcome));
        } else {
            lemma_dispatch_one(state, received);
            assert(head =~= seq![DispatchActionView::Handled(mtype, outcome)]);
            lemma_completions_one(DispatchActionView::Handled(mtype, outcome));
        }
        assert(completions_in(head) =~= seq![(mtype, outcome)]);
        let after = dispatch_run(state, first);
        assert(after.phase == DispatchPhase::Receiving);
        assert(after.registry == registry);
        assert forall|i: int| 0 <= i < rest.len() implies !is_fatal(
            after.policy,
            #[trigger] delivery_outcome(after.registry, rest[i]),
        ) by {
            assert(rest[i] == deliveries[i + 1]);
        }
        lemma_handled_in_arrival_order(after, rest);
        lemma_completions_concat(head, dispatch_trace(after, later));
        assert(expected_completions(registry, deliveries) =~= seq![(mtype, outcome)]
            + expected_completions(registry, rest)) by {
            assert forall|i: int| 0 <= i < rest.len() implies expected_completions(
                registry,
                rest,
            )[i] == expected_completions(registry, deliveries)[i + 1] by {
                assert(rest[i] == deliveries[i + 1]);
            }
        }
    }
}

} // verus!
