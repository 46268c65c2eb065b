//! The readiness gate: a bounded number of polls of the transport before the
//! application may go on.

use vstd::prelude::*;

verus! {

/// How polling ended.
#[derive(Clone, Copy, Debug, PartialEq, Eq, Structural)]
pub enum GateOutcome {
    /// The transport was seen ready.
    Ready,
    /// The transport was seen not ready as often as was allowed.
    TimedOut,
}

/// What a readiness gate asks of its caller.
#[derive(Clone, Copy, Debug, PartialEq, Eq, Structural)]
pub enum GateAction {
    /// Ask the transport now whether it is ready, and report the answer.
    Observe,
    /// Sleep for this many milliseconds, then ask and report.
    WaitThenObserve(u64),
    /// Stop polling: this is how it ended.
    Finish(GateOutcome),
}

/// Mathematical value of a [`ReadinessGate`].
pub struct GateView {
    pub poll_interval_ms: u64,
    pub max_attempts: nat,
    /// Observations of "not ready" in a row so far.
    pub misses: nat,
    pub outcome: Option<GateOutcome>,
}

/// A gate that has observed nothing yet. One that allows no attempt has
/// timed out before its first observation.
pub open spec fn gate_start(poll_interval_ms: u64, max_attempts: nat) -> GateView {
    GateView {
        poll_interval_ms,
        max_attempts,
        misses: 0,
        outcome: if max_attempts == 0 {
            Some(GateOutcome::TimedOut)
        } else {
            None
        },
    }
}

/// A gate after one more observation. A gate that has ended stays as it is.
pub open spec fn gate_observe(gate: GateView, ready: bool) -> GateView {
    if gate.outcome is Some {
        gate
    } else if ready {
        GateView { misses: 0, outcome: Some(GateOutcome::Ready), ..gate }
    } else if gate.misses + 1 >= gate.max_attempts {
        GateView { misses: gate.misses + 1, outcome: Some(GateOutcome::TimedOut), ..gate }
    } else {
        GateView { misses: gate.misses + 1, ..gate }
    }
}

/// What a gate in this state asks for.
pub open spec fn gate_pending(gate: GateView) -> GateAction {
    match gate.outcome {
        Some(outcome) => GateAction::Finish(outcome),
        None => if gate.misses == 0 {
            GateAction::Observe
        } else {
            GateAction::WaitThenObserve(gate.poll_interval_ms)
        },
    }
}

/// A gate after a sequence of observations, first to last.
pub open spec fn gate_run(gate: GateView, observations: Seq<bool>) -> GateView
    decreases observations.len(),
{
    if observations.len() == 0 {
        gate
    } else {
        gate_run(gate_observe(gate, observations[0]), observations.drop_first())
    }
}

/// True when no observation in `observations` saw the transport ready.
pub open spec fn never_ready(observations: Seq<bool>) -> bool {
    forall|i: int| 0 <= i < observations.len() ==> !observations[i]
}

proof fn lemma_run_never_ready(gate: GateView, observations: Seq<bool>)
    requires
        never_ready(observations),
        gate.outcome is None,
        gate.misses < gate.max_attempts,
    ensures
        gate.misses + observations.len() < gate.max_attempts ==> gate_run(gate, observations)
            == (GateView { misses: gate.misses + observations.len(), ..gate }),
        gate.misses + observations.len() >= gate.max_attempts ==> gate_run(gate, observations)
            == (GateView {
            misses: gate.max_attempts,
            outcome: Some(GateOutcome::TimedOut),
            ..gate
        }),
    decreases observations.len(),
{
    if observations.len() > 0 {
        let next = gate_observe(gate, observations[0]);
        let rest = observations.drop_first();
        assert(never_ready(rest)) by {
            assert forall|i: int| 0 <= i < rest.len() implies !rest[i] by {
                assert(rest[i] == observations[i + 1]);
            }
        }
        if next.outcome is None {
            lemma_run_never_ready(next, rest);
        } else {
            lemma_run_ended(next, rest);
        }
    }
}

proof fn lemma_run_ended(gate: GateView, observations: Seq<bool>)
    requires
        gate.outcome is Some,
    ensures
        gate_run(gate, observations) == gate,
    decreases observations.len(),
{
    if observations.len() > 0 {
        lemma_run_ended(gate, observations.drop_first());
    }
}

/// A gate that allows `max_attempts` attempts and never sees the transport
/// ready has not ended after fewer observations than that, and has timed out
/// after exactly that many: whatever is reported later, it has counted
/// `max_attempts` observations and no more.
pub proof fn lemma_never_ready_times_out(
    poll_interval_ms: u64,
    max_attempts: nat,
    observations: Seq<bool>,
)
    requires
        never_ready(observations),
    ensures
        observations.len() < max_attempts ==> {
            let gate = gate_run(gate_start(poll_interval_ms, max_attempts), observations);
            gate.outcome is None && gate.misses == observations.len()
        },
        observations.len() >= max_attempts ==> {
            let gate = gate_run(gate_start(poll_interval_ms, max_attempts), observations);
            gate.outcome == Some(GateOutcome::TimedOut) && gate.misses == max_attempts
        },
{
    let start = gate_start(poll_interval_ms, max_attempts);
    if max_attempts == 0 {
        lemma_run_ended(start, observations);
    } else {
        lemma_run_never_ready(start, observations);
    }
}

/// A gate ends as ready at the first observation that sees the transport
/// ready, provided that fewer than `max_attempts` observations went before.
pub proof fn lemma_first_ready_opens(
    poll_interval_ms: u64,
    max_attempts: nat,
    misses: Seq<bool>,
    later: Seq<bool>,
)
    requires
        never_ready(misses),
        misses.len() < max_attempts,
    ensures
        gate_run(gate_start(poll_interval_ms, max_attempts), misses.push(true) + later).outcome
            == Some(GateOutcome::Ready),
{
    let start = gate_start(poll_interval_ms, max_attempts);
    lemma_run_never_ready(start, misses);
    let before = gate_run(start, misses);
    lemma_run_concat(start, misses, seq![true] + later);
    assert(misses + (seq![true] + later) =~= misses.push(true) + later);
    let rest = seq![true] + later;
    assert(rest[0]);
    assert(rest.drop_first() =~= later);
    lemma_run_ended(gate_observe(before, true), later);
}

proof fn lemma_run_concat(gate: GateView, first: Seq<bool>, second: Seq<bool>)
    ensures
        gate_run(gate, first + second) == gate_run(gate_run(gate, first), second),
    decreases first.len(),
{
    if first.len() == 0 {
        assert(first + second =~= second);
    } else {
        let all = first + second;
        assert(all[0] == first[0]);
        assert(all.drop_first() =~= first.drop_first() + second);
        lemma_run_concat(gate_observe(gate, first[0]), first.drop_first(), second);
    }
}

/// Polls of the transport, counted.
pub struct ReadinessGate {
    poll_interval_ms: u64,
    max_attempts: u32,
    misses: u32,
    outcome: Option<GateOutcome>,
}

impl View for ReadinessGate {
    type V = GateView;

    closed spec fn view(&self) -> GateView {
        GateView {
            poll_interval_ms: self.poll_interval_ms,
            max_attempts: self.max_attempts as nat,
            misses: self.misses as nat,
            outcome: self.outcome,
        }
    }
}

impl ReadinessGate {
    #[verifier::type_invariant]
    spec fn inv(self) -> bool {
        self.outcome is None ==> self.misses < self.max_attempts
    }

    /// A gate that polls every `poll_interval_ms` milliseconds and gives up
    /// after `max_attempts` observations of "not ready" in a row.
    pub fn new(poll_interval_ms: u64, max_attempts: u32) -> (gate: ReadinessGate)
        ensures
            gate@ == gate_start(poll_interval_ms, max_attempts as nat),
    {
        let outcome = if max_attempts == 0 {
            Some(GateOutcome::TimedOut)
        } else {
            None
        };
        ReadinessGate { poll_interval_ms, max_attempts, misses: 0, outcome }
    }

    /// What is asked for now.
    pub fn pending(&self) -> (action: GateAction)
        ensures
            action == gate_pending(self@),
    {
        match self.outcome {
            Some(outcome) => GateAction::Finish(outcome),
            None => if self.misses == 0 {
                GateAction::Observe
            } else {
                GateAction::WaitThenObserve(self.poll_interval_ms)
            },
        }
    }

    /// How polling ended, if it has.
    pub fn outcome(&self) -> (outcome: Option<GateOutcome>)
        ensures
            outcome == self@.outcome,
    {
        self.outcome
    }

    /// Takes one observation of the transport and says what to do next.
    pub fn observe(&mut self, ready: bool) -> (action: GateAction)
        ensures
            final(self)@ == gate_observe(old(self)@, ready),
            action == gate_pending(final(self)@),
    {
        proof {
            use_type_invariant(&*self);
        }
        if self.outcome.is_none() {
            let poll_interval_ms = self.poll_interval_ms;
            let max_attempts = self.max_attempts;
            if ready {
                *self = ReadinessGate {
                    poll_interval_ms,
                    max_attempts,
                    misses: 0,
                    outcome: Some(GateOutcome::Ready),
                };
            } else {
                let misses: u32 = self.misses + 1;
                let outcome = if misses >= max_attempts {
                    Some(GateOutcome::TimedOut)
                } else {
                    None
                };
                *self = ReadinessGate { poll_interval_ms, max_attempts, misses, outcome };
            }
        }
        self.pending()
    }
}

} // verus!
