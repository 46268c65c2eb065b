//! The built-in handlers and the registry that maps a message type to one.

use std::collections::HashMap;
use vstd::prelude::*;
use crate::envelope::{
    EnvelopeView,
    MessageEnvelope,
    RIC_HEALTH_CHECK_REQ,
    RIC_HEALTH_CHECK_RES,
    RIC_INDICATION,
};

verus! {

broadcast use vstd::std_specs::hash::group_hash_axioms;

/// Why handling a message failed.
#[derive(Clone, Copy, Debug, PartialEq, Eq, Structural)]
pub enum FailureReason {
    /// No handler is registered for the message type.
    Unhandled,
    /// The transport could not send the answer.
    SendFailed,
}

/// How handling a message ended.
#[derive(Clone, Copy, Debug, PartialEq, Eq, Structural)]
pub enum HandlerOutcome {
    Success,
    Failure(FailureReason),
}

/// What a handler leaves to be done once it has returned.
#[derive(Clone, Copy, Debug, PartialEq, Eq, Structural)]
pub enum Handling {
    /// Nothing: the message is handled, with this outcome.
    Complete(HandlerOutcome),
    /// The envelope now holds an answer, to be sent on its own transaction.
    ReplyRequired,
}

/// Payload of the answer to a health check: the three bytes of `"OK\n"`.
pub open spec fn health_check_ack() -> Seq<u8> {
    seq![0x4fu8, 0x4bu8, 0x0au8]
}

/// The answer to the health-check request `request`.
pub open spec fn health_check_reply(request: EnvelopeView) -> EnvelopeView {
    EnvelopeView {
        mtype: RIC_HEALTH_CHECK_RES,
        payload: health_check_ack(),
        transaction: request.transaction,
    }
}

/// Turns a health-check request into its answer, in place.
pub fn handle_ric_health_check_request(msg: &mut MessageEnvelope) -> (handling: Handling)
    ensures
        final(msg)@ == health_check_reply(old(msg)@),
        handling == Handling::ReplyRequired,
{
    let mut reply: Vec<u8> = Vec::new();
    reply.push(0x4fu8);
    reply.push(0x4bu8);
    reply.push(0x0au8);
    msg.payload = reply;
    msg.mtype = RIC_HEALTH_CHECK_RES;
    assert(msg.payload@ =~= health_check_ack());
    Handling::ReplyRequired
}

/// Accepts an indication and leaves it as it is.
pub fn rmr_message_handler_noop(msg: &mut MessageEnvelope) -> (handling: Handling)
    ensures
        final(msg)@ == old(msg)@,
        handling == Handling::Complete(HandlerOutcome::Success),
{
    Handling::Complete(HandlerOutcome::Success)
}

/// A handler that a message type can be registered for.
#[derive(Clone, Copy, Debug, PartialEq, Eq, Structural)]
pub enum Handler {
    /// Answers a health-check request.
    HealthCheck,
    /// Accepts an indication.
    Indication,
}

/// What `handler` makes of `envelope`, and what it leaves to be done.
pub open spec fn handler_result(handler: Handler, envelope: EnvelopeView) -> (EnvelopeView, Handling) {
    match handler {
        Handler::HealthCheck => (health_check_reply(envelope), Handling::ReplyRequired),
        Handler::Indication => (envelope, Handling::Complete(HandlerOutcome::Success)),
    }
}

/// Runs `handler` on `msg`.
pub fn invoke(handler: Handler, msg: &mut MessageEnvelope) -> (handling: Handling)
    ensures
        (final(msg)@, handling) == handler_result(handler, old(msg)@),
{
    match handler {
        Handler::HealthCheck => handle_ric_health_check_request(msg),
        Handler::Indication => rmr_message_handler_noop(msg),
    }
}

/// The handler registered for `mtype` in `handlers`, if there is one.
pub open spec fn registered(handlers: Map<i32, Handler>, mtype: i32) -> Option<Handler> {
    if handlers.contains_key(mtype) {
        Some(handlers[mtype])
    } else {
        None
    }
}

/// The handlers that the application starts with: indications are accepted
/// and health checks answered.
pub open spec fn builtin_handlers() -> Map<i32, Handler> {
    Map::<i32, Handler>::empty().insert(RIC_INDICATION, Handler::Indication).insert(
        RIC_HEALTH_CHECK_REQ,
        Handler::HealthCheck,
    )
}

/// Maps message types to handlers. A type that was never registered has
/// none.
pub struct HandlerRegistry {
    handlers: HashMap<i32, Handler>,
}

impl View for HandlerRegistry {
    type V = Map<i32, Handler>;

    closed spec fn view(&self) -> Map<i32, Handler> {
        self.handlers@
    }
}

impl HandlerRegistry {
    /// A registry without handlers.
    pub fn new() -> (registry: HandlerRegistry)
        ensures
            registry@ == Map::<i32, Handler>::empty(),
    {
        HandlerRegistry { handlers: HashMap::new() }
    }

    /// The registry that the application starts with.
    pub fn builtin() -> (registry: HandlerRegistry)
        ensures
            registry@ == builtin_handlers(),
    {
        let mut registry = HandlerRegistry::new();
        registry.register_handler(RIC_INDICATION, Handler::Indication);
        registry.register_handler(RIC_HEALTH_CHECK_REQ, Handler::HealthCheck);
        registry
    }

    /// Registers `handler` for `mtype`, in place of the handler that was
    /// registered for it before, if any.
    pub fn register_handler(&mut self, mtype: i32, handler: Handler)
        ensures
            final(self)@ == old(self)@.insert(mtype, handler),
    {
        self.handlers.insert(mtype, handler);
    }

    /// The handler registered for `mtype`, if there is one.
    pub fn lookup(&self, mtype: i32) -> (handler: Option<Handler>)
        ensures
            handler == registered(self@, mtype),
    {
        match self.handlers.get(&mtype) {
            Some(handler) => Some(*handler),
            None => None,
        }
    }
}

} // verus!
