use crate::node::NodeError;
use vstd::prelude::*;

verus! {

/// The envelope of every record on the wire: who sent it, to whom, and the body.
#[derive(Debug, Clone)]
pub struct Message<Payload> {
    pub src: String,
    pub dst: String,
    pub body: Body<Payload>,
}

/// The body of a record: its own id, the id of the request it answers, and the
/// protocol-specific payload.
#[derive(Debug, Clone)]
pub struct Body<Payload> {
    pub id: Option<usize>,
    pub in_reply_to: Option<usize>,
    pub payload: Payload,
}

/// One unit of work for a node: a decoded inbound record, or an event the node
/// scheduled for itself (a timer tick).
pub enum Event<Payload, InjectedPayload = ()> {
    Message(Message<Payload>),
    Injected(InjectedPayload),
}

/// What the handshake assigns to a node: its own id and the ids of all nodes.
#[derive(Debug, Clone)]
pub struct Init {
    pub node_id: String,
    pub node_ids: Vec<String>,
}

impl<Payload> Message<Payload> {
    /// The reply to this message: addresses swapped, correlated to this
    /// message's id, carrying the same payload until the caller replaces it.
    pub fn into_reply(self, id: Option<usize>) -> (r: Self)
        ensures
            r.src@ == self.dst@,
            r.dst@ == self.src@,
            r.body.id == id,
            r.body.in_reply_to == self.body.id,
            r.body.payload == self.body.payload,
    {
        Message {
            src: self.dst,
            dst: self.src,
            body: Body { id, in_reply_to: self.body.id, payload: self.body.payload },
        }
    }
}

/// The messages of the handshake that opens every session.
#[derive(Debug, Clone)]
pub enum InitPayload {
    Init(Init),
    InitOk,
}

/// Accepts the first record of a session, which must be an `init`: gives
/// the node's assignment and the `init_ok` reply to send back.
pub fn accept_init(init_message: Message<InitPayload>) -> (r: Result<(Init, Message<InitPayload>), NodeError>)
    ensures
        r is Ok <==> init_message.body.payload is Init,
        r is Err ==> r == Err::<(Init, Message<InitPayload>), NodeError>(NodeError::NotInit),
        r matches Ok((init, reply)) ==> {
            &&& init_message.body.payload == InitPayload::Init(init)
            &&& reply.src@ == init_message.dst@
            &&& reply.dst@ == init_message.src@
            &&& reply.body.id is None
            &&& reply.body.in_reply_to == init_message.body.id
            &&& reply.body.payload is InitOk
        },
{
    let mut reply = init_message.into_reply(None);
    match reply.body.payload {
        InitPayload::Init(init) => {
            reply.body.payload = InitPayload::InitOk;
            Ok((init, reply))
        },
        InitPayload::InitOk => Err(NodeError::NotInit),
    }
}

/// The sink that appends outbound records to the process's standard output.
pub struct StdoutWriter;

impl StdoutWriter {
    /// One record as it goes on the stream: its encoding, then the line
    /// terminator that lets the peer's reader split records.
    pub fn frame(&self, encoded: Vec<u8>) -> (r: Vec<u8>)
        ensures
            r@ == encoded@.push(10u8),
    {
        let mut r = encoded;
        r.push(10u8);
        r
    }
}

} // verus!
