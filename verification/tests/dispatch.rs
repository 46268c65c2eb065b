use hw_xapp::counters::RxCounters;
use hw_xapp::dispatch::{
    DispatchAction, DispatchEvent, DispatchLoop, DispatchPhase, FailurePolicy, StopReason,
};
use hw_xapp::envelope::{
    MessageEnvelope, RIC_HEALTH_CHECK_REQ, RIC_HEALTH_CHECK_RES, RIC_INDICATION,
};
use hw_xapp::handlers::{
    handle_ric_health_check_request, invoke, rmr_message_handler_noop, FailureReason, Handler,
    HandlerOutcome, HandlerRegistry, Handling,
};

fn envelope(mtype: i32, payload: &[u8], transaction: &[u8]) -> MessageEnvelope {
    MessageEnvelope::new(mtype, payload.to_vec(), transaction.to_vec())
}

fn builtin_loop(policy: FailurePolicy) -> DispatchLoop {
    DispatchLoop::new(HandlerRegistry::builtin(), policy)
}

#[test]
fn health_check_handler_rewrites_the_envelope() {
    let mut msg = envelope(100, b"are you there", b"tx-17");
    assert_eq!(handle_ric_health_check_request(&mut msg), Handling::ReplyRequired);
    assert_eq!(msg.mtype, 101);
    assert_eq!(msg.mtype, RIC_HEALTH_CHECK_RES);
    assert_eq!(msg.payload, b"OK\n".to_vec());
    assert_eq!(msg.payload, vec![0x4f, 0x4b, 0x0a]);
    assert_eq!(msg.transaction, b"tx-17".to_vec());
}

#[test]
fn health_check_handler_answers_an_empty_payload_too() {
    let mut msg = envelope(RIC_HEALTH_CHECK_REQ, b"", b"");
    handle_ric_health_check_request(&mut msg);
    assert_eq!(msg.mtype, 101);
    assert_eq!(msg.payload, b"OK\n".to_vec());
    assert!(msg.transaction.is_empty());
}

#[test]
fn indication_handler_leaves_the_envelope_alone() {
    let mut msg = envelope(12050, b"\x01\x02", b"tx");
    assert_eq!(
        rmr_message_handler_noop(&mut msg),
        Handling::Complete(HandlerOutcome::Success)
    );
    assert_eq!(msg.mtype, 12050);
    assert_eq!(msg.payload, vec![1, 2]);
    assert_eq!(msg.transaction, b"tx".to_vec());
}

#[test]
fn invoke_runs_the_named_handler() {
    let mut request = envelope(100, b"ping", b"t");
    assert_eq!(invoke(Handler::HealthCheck, &mut request), Handling::ReplyRequired);
    assert_eq!(request.mtype, 101);

    let mut indication = envelope(12050, b"ping", b"t");
    assert_eq!(
        invoke(Handler::Indication, &mut indication),
        Handling::Complete(HandlerOutcome::Success)
    );
    assert_eq!(indication.payload, b"ping".to_vec());
}

#[test]
fn envelope_clone_keeps_every_field() {
    let first = envelope(5, b"abc", b"xyz");
    let copy = first.clone();
    assert_eq!(copy.mtype, 5);
    assert_eq!(copy.payload, b"abc".to_vec());
    assert_eq!(copy.transaction, b"xyz".to_vec());
}

#[test]
fn registry_maps_types_to_handlers() {
    let mut registry = HandlerRegistry::new();
    assert_eq!(registry.lookup(100), None);
    registry.register_handler(100, Handler::HealthCheck);
    assert_eq!(registry.lookup(100), Some(Handler::HealthCheck));
    assert_eq!(registry.lookup(101), None);
    registry.register_handler(100, Handler::Indication);
    assert_eq!(registry.lookup(100), Some(Handler::Indication));
}

#[test]
fn builtin_registry_knows_health_checks_and_indications() {
    let registry = HandlerRegistry::builtin();
    assert_eq!(registry.lookup(RIC_HEALTH_CHECK_REQ), Some(Handler::HealthCheck));
    assert_eq!(registry.lookup(RIC_INDICATION), Some(Handler::Indication));
    assert_eq!(registry.lookup(RIC_HEALTH_CHECK_RES), None);
    assert_eq!(registry.lookup(999), None);
    assert_eq!(registry.lookup(0), None);
    assert_eq!(registry.lookup(-1), None);
}

#[test]
fn counters_start_at_zero_and_count_by_type() {
    let mut counters = RxCounters::new();
    assert_eq!(counters.count(100), 0);
    counters.increment(100);
    counters.increment(100);
    counters.increment(999);
    assert_eq!(counters.count(100), 2);
    assert_eq!(counters.count(999), 1);
    assert_eq!(counters.count(12050), 0);
}

#[test]
fn health_check_round_trip_sends_exactly_one_reply() {
    let mut dispatch = builtin_loop(FailurePolicy::StopLoop);
    let request = envelope(100, b"arbitrary \x00\xff payload", b"sender-42");

    let reply = match dispatch.step(DispatchEvent::Received(request)) {
        DispatchAction::Reply(reply) => reply,
        other => panic!("a health check is answered, got {:?}", other),
    };
    assert_eq!(reply.mtype, 101);
    assert_eq!(reply.payload, b"OK\n".to_vec());
    assert_eq!(reply.transaction, b"sender-42".to_vec());
    assert_eq!(dispatch.phase(), DispatchPhase::Replying(100));
    assert_eq!(dispatch.received(100), 0);

    match dispatch.step(DispatchEvent::ReplySent) {
        DispatchAction::Handled(mtype, outcome) => {
            assert_eq!(mtype, 100);
            assert_eq!(outcome, HandlerOutcome::Success);
        }
        other => panic!("the request is handled once the reply is sent, got {:?}", other),
    }
    assert_eq!(dispatch.phase(), DispatchPhase::Receiving);
    assert_eq!(dispatch.received(100), 1);
    assert_eq!(dispatch.received(101), 0);

    assert!(matches!(dispatch.step(DispatchEvent::ReplySent), DispatchAction::OutOfTurn));
    assert_eq!(dispatch.received(100), 1);
}

#[test]
fn unknown_type_is_counted_and_does_not_stop_the_loop() {
    for policy in [FailurePolicy::StopLoop, FailurePolicy::KeepLooping] {
        let mut dispatch = builtin_loop(policy);
        match dispatch.step(DispatchEvent::Received(envelope(999, b"?", b"t"))) {
            DispatchAction::Handled(mtype, outcome) => {
                assert_eq!(mtype, 999);
                assert_eq!(outcome, HandlerOutcome::Failure(FailureReason::Unhandled));
            }
            other => panic!("an unknown type is reported as unhandled, got {:?}", other),
        }
        assert_eq!(dispatch.phase(), DispatchPhase::Receiving);
        assert_eq!(dispatch.received(999), 1);
        assert_eq!(dispatch.received(100), 0);
        assert_eq!(dispatch.received(101), 0);
        assert_eq!(dispatch.received(12050), 0);

        assert!(matches!(
            dispatch.step(DispatchEvent::Received(envelope(12050, b"", b""))),
            DispatchAction::Handled(12050, HandlerOutcome::Success)
        ));
        assert_eq!(dispatch.received(999), 1);
        assert_eq!(dispatch.received(12050), 1);
    }
}

#[test]
fn indication_is_handled_without_a_reply() {
    let mut dispatch = builtin_loop(FailurePolicy::StopLoop);
    assert!(matches!(
        dispatch.step(DispatchEvent::Received(envelope(RIC_INDICATION, b"data", b"t"))),
        DispatchAction::Handled(12050, HandlerOutcome::Success)
    ));
    assert_eq!(dispatch.phase(), DispatchPhase::Receiving);
    assert_eq!(dispatch.received(RIC_INDICATION), 1);
}

#[test]
fn two_envelopes_are_handled_in_arrival_order() {
    let mut dispatch = builtin_loop(FailurePolicy::StopLoop);
    let queue = vec![envelope(100, b"first", b"tx-1"), envelope(100, b"second", b"tx-2")];
    let mut replies = Vec::new();
    let mut handled = Vec::new();
    for message in queue {
        match dispatch.step(DispatchEvent::Received(message)) {
            DispatchAction::Reply(reply) => {
                assert!(matches!(dispatch.phase(), DispatchPhase::Replying(100)));
                replies.push(reply.transaction.clone());
            }
            other => panic!("expected a reply, got {:?}", other),
        }
        match dispatch.step(DispatchEvent::ReplySent) {
            DispatchAction::Handled(mtype, outcome) => handled.push((mtype, outcome)),
            other => panic!("expected the end of a handling, got {:?}", other),
        }
    }
    assert_eq!(replies, vec![b"tx-1".to_vec(), b"tx-2".to_vec()]);
    assert_eq!(
        handled,
        vec![(100, HandlerOutcome::Success), (100, HandlerOutcome::Success)]
    );
    assert_eq!(dispatch.received(100), 2);
}

#[test]
fn no_second_envelope_is_handled_while_a_reply_is_in_flight() {
    let mut dispatch = builtin_loop(FailurePolicy::StopLoop);
    assert!(matches!(
        dispatch.step(DispatchEvent::Received(envelope(100, b"one", b"tx-1"))),
        DispatchAction::Reply(_)
    ));
    assert!(matches!(
        dispatch.step(DispatchEvent::Received(envelope(100, b"two", b"tx-2"))),
        DispatchAction::OutOfTurn
    ));
    assert!(matches!(
        dispatch.step(DispatchEvent::Received(envelope(999, b"two", b"tx-2"))),
        DispatchAction::OutOfTurn
    ));
    assert!(matches!(dispatch.step(DispatchEvent::ReceiveFailed), DispatchAction::OutOfTurn));
    assert_eq!(dispatch.phase(), DispatchPhase::Replying(100));
    assert_eq!(dispatch.received(100), 0);
    assert_eq!(dispatch.received(999), 0);
    assert!(matches!(
        dispatch.step(DispatchEvent::ReplySent),
        DispatchAction::Handled(100, HandlerOutcome::Success)
    ));
    assert_eq!(dispatch.received(100), 1);
}

#[test]
fn failed_reply_stops_the_loop_by_default() {
    let mut dispatch = builtin_loop(FailurePolicy::StopLoop);
    dispatch.step(DispatchEvent::Received(envelope(100, b"", b"t")));
    match dispatch.step(DispatchEvent::ReplyFailed) {
        DispatchAction::Stop(reason) => {
            assert_eq!(reason, StopReason::HandlerFailed(100, FailureReason::SendFailed));
        }
        other => panic!("a failed reply stops the loop, got {:?}", other),
    }
    assert_eq!(dispatch.phase(), DispatchPhase::Stopped);
    assert_eq!(dispatch.received(100), 1);
    assert!(matches!(
        dispatch.step(DispatchEvent::Received(envelope(100, b"", b"t"))),
        DispatchAction::OutOfTurn
    ));
    assert!(matches!(dispatch.step(DispatchEvent::ReceiveFailed), DispatchAction::OutOfTurn));
    assert_eq!(dispatch.received(100), 1);
}

#[test]
fn failed_reply_is_reported_when_the_loop_keeps_looping() {
    let mut dispatch = builtin_loop(FailurePolicy::KeepLooping);
    dispatch.step(DispatchEvent::Received(envelope(100, b"", b"t")));
    assert!(matches!(
        dispatch.step(DispatchEvent::ReplyFailed),
        DispatchAction::Handled(100, HandlerOutcome::Failure(FailureReason::SendFailed))
    ));
    assert_eq!(dispatch.phase(), DispatchPhase::Receiving);
    assert_eq!(dispatch.received(100), 1);
    assert!(matches!(
        dispatch.step(DispatchEvent::Received(envelope(100, b"", b"t"))),
        DispatchAction::Reply(_)
    ));
}

#[test]
fn receive_failure_stops_the_loop() {
    for policy in [FailurePolicy::StopLoop, FailurePolicy::KeepLooping] {
        let mut dispatch = builtin_loop(policy);
        match dispatch.step(DispatchEvent::ReceiveFailed) {
            DispatchAction::Stop(reason) => assert_eq!(reason, StopReason::ReceiveFailed),
            other => panic!("a receive failure stops the loop, got {:?}", other),
        }
        assert_eq!(dispatch.phase(), DispatchPhase::Stopped);
    }
}

#[test]
fn loop_without_handlers_reports_every_type_as_unhandled() {
    let mut dispatch = DispatchLoop::new(HandlerRegistry::new(), FailurePolicy::StopLoop);
    assert!(matches!(
        dispatch.step(DispatchEvent::Received(envelope(100, b"", b""))),
        DispatchAction::Handled(100, HandlerOutcome::Failure(FailureReason::Unhandled))
    ));
    assert_eq!(dispatch.received(100), 1);
    assert_eq!(dispatch.phase(), DispatchPhase::Receiving);
}
