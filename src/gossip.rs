use crate::known_table::KnownTable;
use crate::message::Body;
use crate::message::Event;
use crate::message::Init;
use crate::message::Message;
use crate::node::Node;
use crate::node::NodeError;
use crate::value_set::copy_set;
use crate::value_set::difference;
use crate::value_set::union_into;
use std::collections::HashMap;
use std::collections::HashSet;
use vstd::prelude::*;

verus! {

broadcast use vstd::std_specs::hash::group_hash_axioms;

/// The messages of the broadcast protocol, by their wire `type` tag.
#[derive(Debug)]
pub enum BroadcastPayload {
    Broadcast { message: usize },
    BroadcastOk,
    Read,
    ReadOk { messages: HashSet<usize> },
    /// The neighbours of each node, as (node id, neighbour ids) entries.
    Topology { topology: Vec<(String, Vec<String>)> },
    TopologyOk,
    Gossip { known: HashSet<usize> },
    GossipOk,
}

/// The events a broadcast node schedules for itself.
#[derive(Debug, Clone)]
pub enum BroadcastInjectedPayload {
    /// Time for one gossip round.
    Gossip,
}

/// A participant of the gossip broadcast protocol.
pub struct BroadcastNode {
    node_id: String,
    msg_id: usize,
    messages: HashSet<usize>,
    neighbors: Vec<String>,
    known: KnownTable,
    sent_gossip_messages: HashMap<usize, HashSet<usize>>,
}

/// The abstract state of a broadcast node.
pub struct BroadcastState {
    pub node_id: Seq<char>,
    /// The id the next originated message will carry.
    pub next_id: nat,
    /// The values this node holds.
    pub messages: Set<usize>,
    /// The peers gossip rounds go to, in order.
    pub neighbors: Seq<Seq<char>>,
    /// For each peer with an entry, a lower bound on the values it holds.
    pub known: Map<Seq<char>, Set<usize>>,
    /// For each unacknowledged gossip message id, the values it carried.
    pub pending: Map<usize, Set<usize>>,
}

pub open spec fn ids_view(v: Seq<String>) -> Seq<Seq<char>> {
    v.map_values(|s: String| s@)
}

/// `known` after learning that `peer` holds every value of `values`.
pub open spec fn learned(
    known: Map<Seq<char>, Set<usize>>,
    peer: Seq<char>,
    values: Set<usize>,
) -> Map<Seq<char>, Set<usize>> {
    known.insert(
        peer,
        if known.contains_key(peer) {
            known[peer].union(values)
        } else {
            values
        },
    )
}

/// The state once one more message id has been handed out.
pub open spec fn id_taken(s: BroadcastState) -> BroadcastState {
    BroadcastState { next_id: (s.next_id + 1) as nat, ..s }
}

/// Whether `m` is a reply from this node to `dst`, answering `in_reply_to`,
/// under the next id of `s`.
pub open spec fn is_reply(
    m: Message<BroadcastPayload>,
    s: BroadcastState,
    dst: Seq<char>,
    in_reply_to: Option<usize>,
) -> bool {
    &&& m.src@ == s.node_id
    &&& m.dst@ == dst
    &&& m.body.id == Some(s.next_id as usize)
    &&& m.body.in_reply_to == in_reply_to
}

/// Whether `t[i]` is the first entry of `t` for node `k`.
pub open spec fn first_entry(t: Seq<(String, Vec<String>)>, k: Seq<char>, i: int) -> bool {
    &&& 0 <= i < t.len()
    &&& t[i].0@ == k
    &&& forall|j: int| 0 <= j < i ==> t[j].0@ != k
}

/// Whether `t` has an entry for node `k`.
pub open spec fn has_entry_for(t: Seq<(String, Vec<String>)>, k: Seq<char>) -> bool {
    exists|i: int| 0 <= i < t.len() && #[trigger] t[i].0@ == k
}

/// Whether every pending gossip id was handed out already, so that fresh
/// ids never collide with a pending one.
pub open spec fn ids_issued(s: BroadcastState) -> bool {
    forall|k: usize| #[trigger] s.pending.contains_key(k) ==> k < s.next_id
}

/// Whether every message pending in `pre` is still pending in `post`, with
/// the same values.
pub open spec fn keeps_pending(pre: BroadcastState, post: BroadcastState) -> bool {
    forall|k: usize| #[trigger]
        pre.pending.contains_key(k) ==> post.pending.contains_key(k) && post.pending[k]
            == pre.pending[k]
}

/// The index of the first entry of `topology` for `node_id`, if it has one.
pub fn entry_of(topology: &Vec<(String, Vec<String>)>, node_id: &String) -> (r: Option<usize>)
    ensures
        r is None <==> !has_entry_for(topology@, node_id@),
        r matches Some(i) ==> first_entry(topology@, node_id@, i as int),
{
    let mut i: usize = 0;
    while i < topology.len() && !(topology[i].0 == *node_id)
        invariant
            i <= topology.len(),
            forall|j: int| 0 <= j < i ==> topology@[j].0@ != node_id@,
        decreases topology.len() - i,
    {
        i = i + 1;
    }
    if i == topology.len() {
        None
    } else {
        assert(first_entry(topology@, node_id@, i as int));
        Some(i)
    }
}

/// The state after merging a gossip message carrying `values` from `sender`.
pub open spec fn after_gossip(s: BroadcastState, sender: Seq<char>, values: Set<usize>) -> BroadcastState {
    BroadcastState {
        messages: s.messages.union(values),
        known: learned(s.known, sender, values),
        ..s
    }
}

/// The state after `sender` acknowledged the pending gossip message `id`.
pub open spec fn after_gossip_ok(s: BroadcastState, sender: Seq<char>, id: usize) -> BroadcastState {
    BroadcastState {
        known: learned(s.known, sender, s.pending[id]),
        pending: s.pending.remove(id),
        ..s
    }
}

/// The values a gossip round sends to `peer`: all values held, less those
/// `peer` is known to hold; all of them where nothing is known of `peer`.
pub open spec fn unknown_to(s: BroadcastState, peer: Seq<char>) -> Set<usize> {
    if s.known.contains_key(peer) {
        s.messages.difference(s.known[peer])
    } else {
        s.messages
    }
}

/// Whether a gossip round can hand out an id to every neighbour.
pub open spec fn round_fits(s: BroadcastState) -> bool {
    s.next_id + s.neighbors.len() <= usize::MAX
}

/// The pending messages once the first `count` neighbours of a round from
/// `s` were sent theirs: the i-th took id `next_id + i`.
pub open spec fn round_pending(s: BroadcastState, count: int) -> Map<usize, Set<usize>> {
    Map::new(
        |k: usize| s.pending.contains_key(k) || (s.next_id <= k < s.next_id + count),
        |k: usize|
            if s.next_id <= k < s.next_id + count {
                unknown_to(s, s.neighbors[k - s.next_id])
            } else {
                s.pending[k]
            },
    )
}

/// The state after a gossip round: each neighbour's message is pending with
/// what it carried.
pub open spec fn after_round(s: BroadcastState) -> BroadcastState {
    BroadcastState {
        next_id: (s.next_id + s.neighbors.len()) as nat,
        pending: round_pending(s, s.neighbors.len() as int),
        ..s
    }
}

pub open spec fn pending_view(m: Map<usize, HashSet<usize>>) -> Map<usize, Set<usize>> {
    m.map_values(|s: HashSet<usize>| s@)
}

/// Whether `m` is the gossip message a round from `s` sends to the i-th neighbour.
pub open spec fn is_round_message(m: Message<BroadcastPayload>, s: BroadcastState, i: int) -> bool {
    &&& m.src@ == s.node_id
    &&& m.dst@ == s.neighbors[i]
    &&& m.body.id == Some((s.next_id + i) as usize)
    &&& m.body.in_reply_to is None
    &&& m.body.payload matches BroadcastPayload::Gossip { known } && known@ == unknown_to(
        s,
        s.neighbors[i],
    )
}

/// What a `broadcast` of `message` from `sender` does: the value is held from
/// now on and acknowledged; with no id left, nothing changes.
pub open spec fn broadcast_outcome(
    pre: BroadcastState,
    message: usize,
    sender: Seq<char>,
    msg_id: Option<usize>,
    post: BroadcastState,
    r: Result<Message<BroadcastPayload>, NodeError>,
) -> bool {
    if pre.next_id >= usize::MAX {
        r == Err::<Message<BroadcastPayload>, NodeError>(NodeError::IdsExhausted) && post == pre
    } else {
        &&& r matches Ok(m) && is_reply(m, pre, sender, msg_id) && m.body.payload is BroadcastOk
        &&& post == BroadcastState { messages: pre.messages.insert(message), ..id_taken(pre) }
    }
}

/// What a `read` from `sender` does: the reply carries every value held.
pub open spec fn read_outcome(
    pre: BroadcastState,
    sender: Seq<char>,
    msg_id: Option<usize>,
    post: BroadcastState,
    r: Result<Message<BroadcastPayload>, NodeError>,
) -> bool {
    if pre.next_id >= usize::MAX {
        r == Err::<Message<BroadcastPayload>, NodeError>(NodeError::IdsExhausted) && post == pre
    } else {
        &&& r matches Ok(m) && is_reply(m, pre, sender, msg_id) && (m.body.payload matches BroadcastPayload::ReadOk { messages }
            && messages@ == pre.messages)
        &&& post == id_taken(pre)
    }
}

/// What a `topology` from `sender` does: this node's first entry becomes its
/// neighbours, acknowledged; a topology without an entry for it is refused.
pub open spec fn topology_outcome(
    pre: BroadcastState,
    topology: Seq<(String, Vec<String>)>,
    sender: Seq<char>,
    msg_id: Option<usize>,
    post: BroadcastState,
    r: Result<Message<BroadcastPayload>, NodeError>,
) -> bool {
    if !has_entry_for(topology, pre.node_id) {
        r == Err::<Message<BroadcastPayload>, NodeError>(NodeError::NotInTopology) && post == pre
    } else if pre.next_id >= usize::MAX {
        r == Err::<Message<BroadcastPayload>, NodeError>(NodeError::IdsExhausted) && post == pre
    } else {
        &&& r matches Ok(m) && is_reply(m, pre, sender, msg_id) && m.body.payload is TopologyOk
        &&& exists|i: int|
            first_entry(topology, pre.node_id, i) && post == BroadcastState {
                neighbors: ids_view(topology[i].1@),
                ..id_taken(pre)
            }
    }
}

/// What a `gossip_ok` from `sender` answering `id` does: `sender` holds what
/// the pending message carried, which is no longer pending; an id with no
/// pending message is refused.
pub open spec fn gossip_ok_outcome(
    pre: BroadcastState,
    id: usize,
    sender: Seq<char>,
    post: BroadcastState,
    r: Result<(), NodeError>,
) -> bool {
    if pre.pending.contains_key(id) {
        r is Ok && post == after_gossip_ok(pre, sender, id)
    } else {
        r == Err::<(), NodeError>(NodeError::UnknownGossipAck { in_reply_to: id }) && post == pre
    }
}

/// What a gossip round does: one message per neighbour, in order; with too
/// few ids left, nothing changes.
pub open spec fn round_outcome(
    pre: BroadcastState,
    post: BroadcastState,
    r: Result<Vec<Message<BroadcastPayload>>, NodeError>,
) -> bool {
    if !round_fits(pre) {
        r == Err::<Vec<Message<BroadcastPayload>>, NodeError>(NodeError::IdsExhausted) && post == pre
    } else {
        &&& r matches Ok(out) && out.len() == pre.neighbors.len() && forall|i: int|
            0 <= i < out.len() ==> is_round_message(#[trigger] out@[i], pre, i)
        &&& post == after_round(pre)
    }
}

/// The single message of a step that sends at most one.
pub open spec fn single(r: Result<Vec<Message<BroadcastPayload>>, NodeError>) -> Result<
    Message<BroadcastPayload>,
    NodeError,
> {
    match r {
        Ok(v) => Ok(v@[0]),
        Err(e) => Err(e),
    }
}

/// Whether `input` is an acknowledgement of a gossip message, the one kind
/// of event that settles a pending message.
pub open spec fn is_ack(input: Event<BroadcastPayload, BroadcastInjectedPayload>) -> bool {
    input matches Event::Message(m) && m.body.payload is GossipOk
}

/// What one event does to a broadcast node, by its kind.
pub open spec fn step_outcome(
    pre: BroadcastState,
    input: Event<BroadcastPayload, BroadcastInjectedPayload>,
    post: BroadcastState,
    r: Result<Vec<Message<BroadcastPayload>>, NodeError>,
) -> bool {
    match input {
        Event::Message(m) => match m.body.payload {
            BroadcastPayload::Broadcast { message } => {
                &&& r matches Ok(v) ==> v.len() == 1
                &&& broadcast_outcome(pre, message, m.src@, m.body.id, post, single(r))
            },
            BroadcastPayload::Read => {
                &&& r matches Ok(v) ==> v.len() == 1
                &&& read_outcome(pre, m.src@, m.body.id, post, single(r))
            },
            BroadcastPayload::Topology { topology } => {
                &&& r matches Ok(v) ==> v.len() == 1
                &&& topology_outcome(pre, topology@, m.src@, m.body.id, post, single(r))
            },
            BroadcastPayload::Gossip { known } => {
                &&& r matches Ok(v) && v.len() == 0
                &&& post == after_gossip(pre, m.src@, known@)
            },
            BroadcastPayload::GossipOk => match m.body.in_reply_to {
                Some(id) => {
                    &&& r matches Ok(v) ==> v.len() == 0
                    &&& gossip_ok_outcome(
                        pre,
                        id,
                        m.src@,
                        post,
                        match r {
                            Ok(_) => Ok(()),
                            Err(e) => Err(e),
                        },
                    )
                },
                None => r == Err::<Vec<Message<BroadcastPayload>>, NodeError>(
                    NodeError::MissingInReplyTo,
                ) && post == pre,
            },
            _ => r matches Ok(v) && v.len() == 0 && post == pre,
        },
        Event::Injected(BroadcastInjectedPayload::Gossip) => round_outcome(pre, post, r),
    }
}

impl View for BroadcastNode {
    type V = BroadcastState;

    closed spec fn view(&self) -> BroadcastState {
        BroadcastState {
            node_id: self.node_id@,
            next_id: self.msg_id as nat,
            messages: self.messages@,
            neighbors: ids_view(self.neighbors@),
            known: self.known@,
            pending: pending_view(self.sent_gossip_messages@),
        }
    }
}

impl BroadcastNode {
    /// The peer table is consistent, and every pending gossip id was handed out.
    pub closed spec fn inv(&self) -> bool {
        &&& self.known.wf()
        &&& forall|k: usize| #[trigger]
            self.sent_gossip_messages@.contains_key(k) ==> k < self.msg_id
    }

    proof fn lemma_ids_issued(&self)
        requires
            self.inv(),
        ensures
            ids_issued(self@),
    {
        assert forall|k: usize| #[trigger] self@.pending.contains_key(k) implies k < self@.next_id by {
            assert(self.sent_gossip_messages@.contains_key(k));
        }
    }

    /// A node named `node_id` that holds no values, has no neighbours and
    /// knows nothing of its peers.
    pub fn new(node_id: String) -> (r: Self)
        ensures
            r.inv(),
            r@.node_id == node_id@,
            r@.next_id == 0,
            r@.messages == Set::<usize>::empty(),
            r@.neighbors == Seq::<Seq<char>>::empty(),
            r@.known == Map::<Seq<char>, Set<usize>>::empty(),
            r@.pending == Map::<usize, Set<usize>>::empty(),
    {
        let r = BroadcastNode {
            node_id,
            msg_id: 0,
            messages: HashSet::new(),
            neighbors: Vec::new(),
            known: KnownTable::new(),
            sent_gossip_messages: HashMap::new(),
        };
        assert(r@.neighbors =~= Seq::<Seq<char>>::empty());
        assert(r@.pending =~= Map::<usize, Set<usize>>::empty());
        r
    }

    /// Hands out the next message id.
    pub fn generate_msg_id(&mut self) -> (r: usize)
        requires
            old(self).inv(),
            old(self)@.next_id < usize::MAX,
        ensures
            final(self).inv(),
            r == old(self)@.next_id,
            final(self)@ == id_taken(old(self)@),
    {
        let ret = self.msg_id;
        self.msg_id = self.msg_id + 1;
        ret
    }

    /// Adds `message` to the values held and acknowledges it to `sender`.
    pub fn handle_broadcast(&mut self, message: usize, sender: String, msg_id: Option<usize>) -> (r:
        Result<Message<BroadcastPayload>, NodeError>)
        requires
            old(self).inv(),
        ensures
            final(self).inv(),
            broadcast_outcome(old(self)@, message, sender@, msg_id, final(self)@, r),
            old(self)@.messages.subset_of(final(self)@.messages),
            r is Ok ==> final(self)@.messages.contains(message),
    {
        if self.msg_id == usize::MAX {
            return Err(NodeError::IdsExhausted);
        }
        self.messages.insert(message);
        let id = self.generate_msg_id();
        Ok(Message {
            src: self.node_id.clone(),
            dst: sender,
            body: Body { id: Some(id), in_reply_to: msg_id, payload: BroadcastPayload::BroadcastOk },
        })
    }

    /// Answers `sender` with every value held.
    pub fn handle_read(&mut self, sender: String, msg_id: Option<usize>) -> (r: Result<
        Message<BroadcastPayload>,
        NodeError,
    >)
        requires
            old(self).inv(),
        ensures
            final(self).inv(),
            read_outcome(old(self)@, sender@, msg_id, final(self)@, r),
    {
        if self.msg_id == usize::MAX {
            return Err(NodeError::IdsExhausted);
        }
        let messages = copy_set(&self.messages);
        let id = self.generate_msg_id();
        Ok(Message {
            src: self.node_id.clone(),
            dst: sender,
            body: Body {
                id: Some(id),
                in_reply_to: msg_id,
                payload: BroadcastPayload::ReadOk { messages },
            },
        })
    }

    /// Adopts this node's entry of `topology` as its neighbours and
    /// acknowledges to `sender`. A topology without an entry for this node
    /// is a protocol violation that `step` refuses before calling this.
    pub fn handle_topology(
        &mut self,
        topology: Vec<(String, Vec<String>)>,
        sender: String,
        msg_id: Option<usize>,
    ) -> (r: Result<Message<BroadcastPayload>, NodeError>)
        requires
            old(self).inv(),
            has_entry_for(topology@, old(self)@.node_id),
        ensures
            final(self).inv(),
            topology_outcome(old(self)@, topology@, sender@, msg_id, final(self)@, r),
    {
        let mut topology = topology;
        let i = entry_of(&topology, &self.node_id).unwrap();
        if self.msg_id == usize::MAX {
            return Err(NodeError::IdsExhausted);
        }
        let ghost t = topology@;
        let ghost pre = self@;
        let (_, neighbors) = topology.remove(i);
        self.neighbors = neighbors;
        let id = self.generate_msg_id();
        assert(self@ == BroadcastState { neighbors: ids_view(t[i as int].1@), ..id_taken(pre) });
        Ok(Message {
            src: self.node_id.clone(),
            dst: sender,
            body: Body { id: Some(id), in_reply_to: msg_id, payload: BroadcastPayload::TopologyOk },
        })
    }

    /// Merges the values of a gossip message from `sender`: this node holds
    /// them from now on, and so, demonstrably, does `sender`. Gossip is fire
    /// and forget: no `gossip_ok` goes back, so the sender's pending entry
    /// for it stays.
    pub fn handle_gossip(&mut self, known: HashSet<usize>, sender: String)
        requires
            old(self).inv(),
        ensures
            final(self).inv(),
            final(self)@ == after_gossip(old(self)@, sender@, known@),
            old(self)@.messages.subset_of(final(self)@.messages),
            known@.subset_of(final(self)@.messages),
    {
        self.known.extend(sender, &known);
        union_into(&mut self.messages, &known);
    }

    /// Settles the pending gossip message `in_reply_to`, which `sender`
    /// acknowledged: `sender` holds what it carried. An id with no pending
    /// message is a protocol violation that `step` refuses before calling this.
    pub fn handle_gossip_ok(&mut self, in_reply_to: usize, sender: String)
        requires
            old(self).inv(),
            old(self)@.pending.contains_key(in_reply_to),
        ensures
            final(self).inv(),
            final(self)@ == after_gossip_ok(old(self)@, sender@, in_reply_to),
    {
        let ghost pre = self@;
        match self.sent_gossip_messages.remove(&in_reply_to) {
            Some(sent) => {
                self.known.extend(sender, &sent);
                assert(self@.pending =~= pre.pending.remove(in_reply_to));
            },
            None => {},
        }
    }

    /// One gossip round: to each neighbour in order, a gossip message with
    /// the values it is not known to hold, under a fresh id that is then
    /// pending with those values.
    pub fn gossip(&mut self) -> (r: Result<Vec<Message<BroadcastPayload>>, NodeError>)
        requires
            old(self).inv(),
        ensures
            final(self).inv(),
            round_outcome(old(self)@, final(self)@, r),
            keeps_pending(old(self)@, final(self)@),
    {
        let ghost pre = self@;
        proof {
            self.lemma_ids_issued();
        }
        if self.msg_id > usize::MAX - self.neighbors.len() {
            return Err(NodeError::IdsExhausted);
        }
        let mut out: Vec<Message<BroadcastPayload>> = Vec::new();
        let mut i: usize = 0;
        assert(round_pending(pre, 0) =~= pre.pending);
        while i < self.neighbors.len()
            invariant
                self.inv(),
                i <= self.neighbors.len(),
                pre.next_id + pre.neighbors.len() <= usize::MAX,
                self@ == (BroadcastState {
                    next_id: (pre.next_id + i) as nat,
                    pending: round_pending(pre, i as int),
                    ..pre
                }),
                out.len() == i,
                forall|j: int| 0 <= j < i ==> is_round_message(#[trigger] out@[j], pre, j),
            decreases self.neighbors.len() - i,
        {
            let unknown = match self.known.get(&self.neighbors[i]) {
                Some(known_to_neighbor) => difference(&self.messages, known_to_neighbor),
                None => copy_set(&self.messages),
            };
            let id = self.generate_msg_id();
            let ghost before = self.sent_gossip_messages@;
            self.sent_gossip_messages.insert(id, copy_set(&unknown));
            out.push(Message {
                src: self.node_id.clone(),
                dst: self.neighbors[i].clone(),
                body: Body {
                    id: Some(id),
                    in_reply_to: None,
                    payload: BroadcastPayload::Gossip { known: unknown },
                },
            });
            proof {
                assert(self.neighbors@[i as int]@ == pre.neighbors[i as int]);
                assert(pending_view(self.sent_gossip_messages@) =~= pending_view(before).insert(
                    id,
                    unknown_to(pre, pre.neighbors[i as int]),
                ));
                assert(self@.pending =~= round_pending(pre, i + 1));
            }
            i = i + 1;
        }
        Ok(out)
    }
    /// This node's id.
    pub fn node_id(&self) -> (r: &String)
        ensures
            r@ == self@.node_id,
    {
        &self.node_id
    }

    /// The id the next originated message will carry.
    pub fn next_msg_id(&self) -> (r: usize)
        ensures
            r == self@.next_id,
    {
        self.msg_id
    }

    /// The values this node holds.
    pub fn messages(&self) -> (r: &HashSet<usize>)
        ensures
            r@ == self@.messages,
    {
        &self.messages
    }

    /// The peers gossip rounds go to, in order.
    pub fn neighbors(&self) -> (r: &Vec<String>)
        ensures
            ids_view(r@) == self@.neighbors,
    {
        &self.neighbors
    }

    /// The values `peer` is known to hold, if anything is known of it.
    pub fn known_to(&self, peer: &String) -> (r: Option<&HashSet<usize>>)
        requires
            self.inv(),
        ensures
            r is Some <==> self@.known.contains_key(peer@),
            r matches Some(s) ==> s@ == self@.known[peer@],
    {
        self.known.get(peer)
    }

    /// The values the unacknowledged gossip message `id` carried, if it is pending.
    pub fn pending(&self, id: usize) -> (r: Option<&HashSet<usize>>)
        ensures
            r is Some <==> self@.pending.contains_key(id),
            r matches Some(s) ==> s@ == self@.pending[id],
    {
        self.sent_gossip_messages.get(&id)
    }
}

impl Node<BroadcastPayload, BroadcastInjectedPayload> for BroadcastNode {
    open spec fn wf(&self) -> bool {
        self.inv()
    }

    /// A node named by the handshake, with no values, neighbours or peer knowledge.
    fn from_init(init: Init) -> (r: Self)
        ensures
            r@ == (BroadcastState {
                node_id: init.node_id@,
                next_id: 0,
                messages: Set::empty(),
                neighbors: Seq::empty(),
                known: Map::empty(),
                pending: Map::empty(),
            }),
    {
        BroadcastNode::new(init.node_id)
    }

    /// Handles one event; no event ever takes a value away.
    fn step(&mut self, input: Event<BroadcastPayload, BroadcastInjectedPayload>) -> (r: Result<
        Vec<Message<BroadcastPayload>>,
        NodeError,
    >)
        ensures
            step_outcome(old(self)@, input, final(self)@, r),
            old(self)@.messages.subset_of(final(self)@.messages),
            ids_issued(final(self)@),
            !is_ack(input) ==> keeps_pending(old(self)@, final(self)@),
    {
        let r = match input {
            Event::Message(input) => {
                let src = input.src;
                let id = input.body.id;
                let in_reply_to = input.body.in_reply_to;
                match input.body.payload {
                    BroadcastPayload::Broadcast { message } => match self.handle_broadcast(message, src, id) {
                        Ok(m) => Ok(vec![m]),
                        Err(e) => Err(e),
                    },
                    BroadcastPayload::Read => match self.handle_read(src, id) {
                        Ok(m) => Ok(vec![m]),
                        Err(e) => Err(e),
                    },
                    BroadcastPayload::Topology { topology } => {
                        if entry_of(&topology, &self.node_id).is_none() {
                            Err(NodeError::NotInTopology)
                        } else {
                            match self.handle_topology(topology, src, id) {
                                Ok(m) => Ok(vec![m]),
                                Err(e) => Err(e),
                            }
                        }
                    },
                    BroadcastPayload::Gossip { known } => {
                        self.handle_gossip(known, src);
                        Ok(Vec::new())
                    },
                    BroadcastPayload::GossipOk => match in_reply_to {
                        Some(acked) => {
                            if self.pending(acked).is_none() {
                                Err(NodeError::UnknownGossipAck { in_reply_to: acked })
                            } else {
                                self.handle_gossip_ok(acked, src);
                                Ok(Vec::new())
                            }
                        },
                        None => Err(NodeError::MissingInReplyTo),
                    },
                    BroadcastPayload::BroadcastOk
                    | BroadcastPayload::ReadOk { .. }
                    | BroadcastPayload::TopologyOk => Ok(Vec::new()),
                }
            },
            Event::Injected(BroadcastInjectedPayload::Gossip) => self.gossip(),
        };
        proof {
            self.lemma_ids_issued();
        }
        r
    }
}

} // verus!
