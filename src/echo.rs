use crate::message::Body;
use crate::message::Event;
use crate::message::Init;
use crate::message::Message;
use crate::node::Node;
use crate::node::NodeError;
use vstd::prelude::*;

verus! {

/// The messages of the echo protocol.
#[derive(Debug, Clone)]
pub enum EchoPayload {
    Echo { echo: String },
    EchoOk { echo: String },
}

/// A node that answers each `echo` with the same text.
pub struct EchoNode {
    msg_id: usize,
}

impl View for EchoNode {
    /// The id the next reply will carry.
    type V = nat;

    closed spec fn view(&self) -> nat {
        self.msg_id as nat
    }
}

/// What one event does to an echo node whose next id is `pre`.
pub open spec fn echo_outcome(
    pre: nat,
    input: Event<EchoPayload, ()>,
    post: nat,
    r: Result<Vec<Message<EchoPayload>>, NodeError>,
) -> bool {
    match input {
        Event::Injected(_) => r == Err::<Vec<Message<EchoPayload>>, NodeError>(
            NodeError::UnexpectedInjected,
        ) && post == pre,
        Event::Message(m) => match m.body.payload {
            EchoPayload::Echo { echo } => if pre >= usize::MAX {
                r == Err::<Vec<Message<EchoPayload>>, NodeError>(NodeError::IdsExhausted) && post
                    == pre
            } else {
                &&& r matches Ok(v) && v.len() == 1 && v@[0].src@ == m.dst@ && v@[0].dst@ == m.src@
                    && v@[0].body.id == Some(pre as usize) && v@[0].body.in_reply_to == m.body.id
                    && (v@[0].body.payload matches EchoPayload::EchoOk { echo: e } && e@ == echo@)
                &&& post == pre + 1
            },
            EchoPayload::EchoOk { .. } => r matches Ok(v) && v.len() == 0 && post == pre,
        },
    }
}

impl Node<EchoPayload, ()> for EchoNode {
    open spec fn wf(&self) -> bool {
        true
    }

    fn from_init(_init: Init) -> (r: Self)
        ensures
            r@ == 0,
    {
        EchoNode { msg_id: 0 }
    }

    fn step(&mut self, input: Event<EchoPayload, ()>) -> (r: Result<
        Vec<Message<EchoPayload>>,
        NodeError,
    >)
        ensures
            echo_outcome(old(self)@, input, final(self)@, r),
    {
        let reply = match input {
            Event::Message(input) => input.into_reply(Some(self.msg_id)),
            Event::Injected(_) => {
                return Err(NodeError::UnexpectedInjected);
            },
        };
        match reply.body.payload {
            EchoPayload::Echo { echo } => {
                if self.msg_id == usize::MAX {
                    return Err(NodeError::IdsExhausted);
                }
                self.msg_id = self.msg_id + 1;
                Ok(
                    vec![
                        Message {
                            src: reply.src,
                            dst: reply.dst,
                            body: Body {
                                id: reply.body.id,
                                in_reply_to: reply.body.in_reply_to,
                                payload: EchoPayload::EchoOk { echo },
                            },
                        },
                    ],
                )
            },
            EchoPayload::EchoOk { .. } => Ok(Vec::new()),
        }
    }
}

} // verus!
