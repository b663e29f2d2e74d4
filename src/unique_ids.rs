use crate::message::Body;
use crate::message::Event;
use crate::message::Init;
use crate::message::Message;
use crate::node::Node;
use crate::node::NodeError;
use vstd::prelude::*;
use vstd::string::StringExecFns;

verus! {

/// The messages of the unique-id protocol.
#[derive(Debug, Clone)]
pub enum GeneratePayload {
    Generate,
    GenerateOk { id: String },
}

/// A node that answers each `generate` with an id no other answer carries:
/// its own node id and the reply's message id.
pub struct UniqueIDsNode {
    node_id: String,
    msg_id: usize,
}

/// The abstract state of a unique-id node.
pub struct UniqueIDsState {
    pub node_id: Seq<char>,
    /// The id the next reply will carry.
    pub next_id: nat,
}

/// The character of a decimal digit.
pub open spec fn digit_char(d: nat) -> char {
    seq!['0', '1', '2', '3', '4', '5', '6', '7', '8', '9'][d as int]
}

/// The decimal digits of `n`, most significant first, without leading zeros.
pub open spec fn decimal(n: nat) -> Seq<char>
    decreases n,
{
    if n < 10 {
        seq![digit_char(n)]
    } else {
        decimal(n / 10).push(digit_char(n % 10))
    }
}

/// The id a node named `node_id` hands out under counter value `n`.
pub open spec fn unique_id(node_id: Seq<char>, n: nat) -> Seq<char> {
    node_id + seq!['-'] + decimal(n)
}

/// Relies on `ToString::to_string` through std's `Display` for `usize`,
/// which writes a number's decimal digits with no sign, padding or separators.
#[verifier::external_body]
fn decimal_string(n: usize) -> (r: String)
    ensures
        r@ == decimal(n as nat),
{
    n.to_string()
}

impl View for UniqueIDsNode {
    type V = UniqueIDsState;

    closed spec fn view(&self) -> UniqueIDsState {
        UniqueIDsState { node_id: self.node_id@, next_id: self.msg_id as nat }
    }
}

/// What one event does to a unique-id node.
pub open spec fn generate_outcome(
    pre: UniqueIDsState,
    input: Event<GeneratePayload, ()>,
    post: UniqueIDsState,
    r: Result<Vec<Message<GeneratePayload>>, NodeError>,
) -> bool {
    match input {
        Event::Injected(_) => r == Err::<Vec<Message<GeneratePayload>>, NodeError>(
            NodeError::UnexpectedInjected,
        ) && post == pre,
        Event::Message(m) => match m.body.payload {
            GeneratePayload::Generate => if pre.next_id >= usize::MAX {
                r == Err::<Vec<Message<GeneratePayload>>, NodeError>(NodeError::IdsExhausted)
                    && post == pre
            } else {
                &&& r matches Ok(v) && v.len() == 1 && v@[0].src@ == m.dst@ && v@[0].dst@ == m.src@
                    && v@[0].body.id == Some(pre.next_id as usize) && v@[0].body.in_reply_to
                    == m.body.id && (v@[0].body.payload matches GeneratePayload::GenerateOk { id }
                    && id@ == unique_id(pre.node_id, pre.next_id))
                &&& post == UniqueIDsState { next_id: pre.next_id + 1, ..pre }
            },
            GeneratePayload::GenerateOk { .. } => r matches Ok(v) && v.len() == 0 && post == pre,
        },
    }
}

impl UniqueIDsNode {
    /// The id the current counter value stands for.
    pub fn generate_id(&mut self) -> (r: String)
        ensures
            final(self)@ == old(self)@,
            r@ == unique_id(old(self)@.node_id, old(self)@.next_id),
    {
        let mut r = self.node_id.clone();
        proof {
            reveal_strlit("-");
        }
        r.append("-");
        let digits = decimal_string(self.msg_id);
        r.append(digits.as_str());
        r
    }
}

impl Node<GeneratePayload, ()> for UniqueIDsNode {
    open spec fn wf(&self) -> bool {
        true
    }

    fn from_init(init: Init) -> (r: Self)
        ensures
            r@ == (UniqueIDsState { node_id: init.node_id@, next_id: 0 }),
    {
        UniqueIDsNode { node_id: init.node_id, msg_id: 0 }
    }

    fn step(&mut self, input: Event<GeneratePayload, ()>) -> (r: Result<
        Vec<Message<GeneratePayload>>,
        NodeError,
    >)
        ensures
            generate_outcome(old(self)@, input, final(self)@, r),
    {
        let reply = match input {
            Event::Message(input) => input.into_reply(Some(self.msg_id)),
            Event::Injected(_) => {
                return Err(NodeError::UnexpectedInjected);
            },
        };
        match reply.body.payload {
            GeneratePayload::Generate => {
                if self.msg_id == usize::MAX {
                    return Err(NodeError::IdsExhausted);
                }
                let id = self.generate_id();
                self.msg_id = self.msg_id + 1;
                Ok(
                    vec![
                        Message {
                            src: reply.src,
                            dst: reply.dst,
                            body: Body {
                                id: reply.body.id,
                                in_reply_to: reply.body.in_reply_to,
                                payload: GeneratePayload::GenerateOk { id },
                            },
                        },
                    ],
                )
            },
            GeneratePayload::GenerateOk { .. } => Ok(Vec::new()),
        }
    }
}

} // verus!
