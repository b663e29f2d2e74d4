use crate::message::Event;
use crate::message::Init;
use crate::message::Message;
use vstd::prelude::*;

verus! {

/// The conditions on which a node gives up: each one ends the process.
#[derive(Debug, Clone, Copy, PartialEq, Eq, Structural)]
pub enum NodeError {
    /// The first record of a session is not an `init`.
    NotInit,
    /// A topology message holds no entry for this node.
    NotInTopology,
    /// A `gossip_ok` correlates to no gossip message awaiting acknowledgement.
    UnknownGossipAck { in_reply_to: usize },
    /// A `gossip_ok` carries no `in_reply_to`.
    MissingInReplyTo,
    /// An injected event reached a node that schedules none.
    UnexpectedInjected,
    /// The node's message-id counter cannot advance any further.
    IdsExhausted,
}

/// A protocol participant: built once from the handshake, then handed events
/// one at a time; each event yields the messages to send, in order.
pub trait Node<Payload, InjectedPayload>: Sized {
    /// The node's internal consistency, kept across every step.
    spec fn wf(&self) -> bool;

    fn from_init(init: Init) -> (r: Self)
        ensures
            r.wf(),
    ;

    fn step(&mut self, input: Event<Payload, InjectedPayload>) -> (r: Result<
        Vec<Message<Payload>>,
        NodeError,
    >)
        requires
            old(self).wf(),
        ensures
            final(self).wf(),
    ;
}

} // verus!
