//! The unit that travels between the transport and the handlers.

use vstd::prelude::*;

verus! {

/// Message type of a health-check request.
pub const RIC_HEALTH_CHECK_REQ: i32 = 100;

/// Message type of the answer to a health-check request.
pub const RIC_HEALTH_CHECK_RES: i32 = 101;

/// Message type of an indication sent by a managed node.
pub const RIC_INDICATION: i32 = 12050;

/// A typed message with its payload.
///
/// `transaction` is what the transport needs to route an answer back to the
/// sender of this message; the core carries it along and never reads it.
#[derive(Debug)]
pub struct MessageEnvelope {
    pub mtype: i32,
    pub payload: Vec<u8>,
    pub transaction: Vec<u8>,
}

/// Mathematical value of a [`MessageEnvelope`].
pub struct EnvelopeView {
    pub mtype: i32,
    pub payload: Seq<u8>,
    pub transaction: Seq<u8>,
}

impl View for MessageEnvelope {
    type V = EnvelopeView;

    open spec fn view(&self) -> EnvelopeView {
        EnvelopeView {
            mtype: self.mtype,
            payload: self.payload@,
            transaction: self.transaction@,
        }
    }
}

impl Clone for MessageEnvelope {
    fn clone(&self) -> (copy: MessageEnvelope)
        ensures
            copy@ == self@,
    {
        MessageEnvelope {
            mtype: self.mtype,
            payload: self.payload.clone(),
            transaction: self.transaction.clone(),
        }
    }
}

impl MessageEnvelope {
    /// An envelope of type `mtype` that carries `payload` on `transaction`.
    pub fn new(mtype: i32, payload: Vec<u8>, transaction: Vec<u8>) -> (envelope: MessageEnvelope)
        ensures
            envelope@ == (EnvelopeView {
                mtype,
                payload: payload@,
                transaction: transaction@,
            }),
    {
        MessageEnvelope { mtype, payload, transaction }
    }
}

} // verus!
