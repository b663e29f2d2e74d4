use crate::gossip::after_gossip;
use crate::gossip::gossip_ok_outcome;
use crate::gossip::is_round_message;
use crate::gossip::BroadcastPayload;
use crate::gossip::BroadcastInjectedPayload;
use crate::gossip::BroadcastState;
use crate::gossip::step_outcome;
use crate::message::Event;
use crate::message::Message;
use crate::node::NodeError;
use vstd::prelude::*;

verus! {

/// The values a gossip message carries; none for any other message.
pub open spec fn carried(m: Message<BroadcastPayload>) -> Set<usize> {
    match m.body.payload {
        BroadcastPayload::Gossip { known } => known@,
        _ => Set::empty(),
    }
}

/// Merging the same gossip message twice leaves the node as merging it once:
/// the same values, and the same knowledge of the sender (and of everyone else).
pub proof fn lemma_gossip_merge_idempotent(s: BroadcastState, sender: Seq<char>, known: Set<usize>)
    ensures
        after_gossip(after_gossip(s, sender, known), sender, known) == after_gossip(s, sender, known),
{
    let once = after_gossip(s, sender, known);
    let twice = after_gossip(once, sender, known);
    assert(twice.messages =~= once.messages);
    assert(once.known[sender].union(known) =~= once.known[sender]);
    assert(twice.known =~= once.known);
}

/// Through `step`: the same gossip event handled a second time sends
/// nothing and leaves the node exactly as the first time left it.
pub proof fn lemma_gossip_event_idempotent(
    s0: BroadcastState,
    ev: Event<BroadcastPayload, BroadcastInjectedPayload>,
    s1: BroadcastState,
    r1: Result<Vec<Message<BroadcastPayload>>, NodeError>,
    s2: BroadcastState,
    r2: Result<Vec<Message<BroadcastPayload>>, NodeError>,
)
    requires
        ev matches Event::Message(m) && m.body.payload is Gossip,
        step_outcome(s0, ev, s1, r1),
        step_outcome(s1, ev, s2, r2),
    ensures
        r2 matches Ok(v) && v.len() == 0,
        s2 == s1,
{
    if let Event::Message(m) = ev {
        if let BroadcastPayload::Gossip { known } = m.body.payload {
            lemma_gossip_merge_idempotent(s0, m.src@, known@);
        }
    }
}

/// Once `sender` acknowledges a pending gossip message, `sender` is known to
/// hold everything that message carried, and the message is no longer pending.
pub proof fn lemma_ack_settles(
    pre: BroadcastState,
    id: usize,
    sender: Seq<char>,
    post: BroadcastState,
    r: Result<(), NodeError>,
)
    requires
        gossip_ok_outcome(pre, id, sender, post, r),
        pre.pending.contains_key(id),
    ensures
        r is Ok,
        post.known.contains_key(sender),
        pre.pending[id].subset_of(post.known[sender]),
        !post.pending.contains_key(id),
{
}

/// An acknowledgement of an id with no pending gossip message is refused,
/// and the node is left as it was.
pub proof fn lemma_unknown_ack_refused(
    pre: BroadcastState,
    id: usize,
    sender: Seq<char>,
    post: BroadcastState,
    r: Result<(), NodeError>,
)
    requires
        gossip_ok_outcome(pre, id, sender, post, r),
        !pre.pending.contains_key(id),
    ensures
        r == Err::<(), NodeError>(NodeError::UnknownGossipAck { in_reply_to: id }),
        post == pre,
{
}

/// One step towards convergence: when what `a` believes its i-th neighbour
/// holds is a true lower bound of what that neighbour `b` holds, `b` holds
/// every value of `a` once it has merged the message of `a`'s gossip round.
pub proof fn lemma_round_delivers(a: BroadcastState, i: int, m: Message<BroadcastPayload>, b: BroadcastState)
    requires
        0 <= i < a.neighbors.len(),
        is_round_message(m, a, i),
        b.node_id == a.neighbors[i],
        a.known.contains_key(b.node_id) ==> a.known[b.node_id].subset_of(b.messages),
    ensures
        a.messages.subset_of(after_gossip(b, m.src@, carried(m)).messages),
{
}

/// The other step towards convergence: what a node learns of a peer from
/// that peer's gossip is true of the peer. If `b`'s record of `a` was a lower
/// bound of `a`'s values, it still is once `b` has merged a message of
/// `a`'s gossip round.
pub proof fn lemma_gossip_keeps_lower_bound(
    a: BroadcastState,
    i: int,
    m: Message<BroadcastPayload>,
    b: BroadcastState,
)
    requires
        0 <= i < a.neighbors.len(),
        is_round_message(m, a, i),
        b.known.contains_key(a.node_id) ==> b.known[a.node_id].subset_of(a.messages),
    ensures
        after_gossip(b, m.src@, carried(m)).known[a.node_id].subset_of(a.messages),
{
}

} // verus!
