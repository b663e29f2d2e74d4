use std::collections::HashSet;

use distributed_systems_challenges::gossip::{
    BroadcastInjectedPayload, BroadcastNode, BroadcastPayload,
};
use distributed_systems_challenges::{Body, Event, Init, Message, Node, NodeError};

fn node(id: &str) -> BroadcastNode {
    BroadcastNode::from_init(Init {
        node_id: id.to_string(),
        node_ids: vec!["n1".to_string(), "n2".to_string(), "n3".to_string()],
    })
}

fn msg(
    src: &str,
    dst: &str,
    id: Option<usize>,
    in_reply_to: Option<usize>,
    payload: BroadcastPayload,
) -> Event<BroadcastPayload, BroadcastInjectedPayload> {
    Event::Message(Message {
        src: src.to_string(),
        dst: dst.to_string(),
        body: Body { id, in_reply_to, payload },
    })
}

fn tick() -> Event<BroadcastPayload, BroadcastInjectedPayload> {
    Event::Injected(BroadcastInjectedPayload::Gossip)
}

fn set(values: &[usize]) -> HashSet<usize> {
    values.iter().cloned().collect()
}

fn topology(entries: &[(&str, &[&str])]) -> BroadcastPayload {
    BroadcastPayload::Topology {
        topology: entries
            .iter()
            .map(|(k, v)| (k.to_string(), v.iter().map(|s| s.to_string()).collect()))
            .collect(),
    }
}

fn with_neighbors(id: &str, neighbors: &[&str]) -> BroadcastNode {
    let mut n = node(id);
    let out = n
        .step(msg("c1", id, Some(1), None, topology(&[(id, neighbors)])))
        .unwrap();
    assert_eq!(out.len(), 1);
    n
}

fn read_values(n: &mut BroadcastNode) -> HashSet<usize> {
    let dst = n.node_id().clone();
    let out = n.step(msg("c1", &dst, Some(99), None, BroadcastPayload::Read)).unwrap();
    assert_eq!(out.len(), 1);
    match &out[0].body.payload {
        BroadcastPayload::ReadOk { messages } => messages.clone(),
        _ => panic!("expected read_ok"),
    }
}

#[test]
fn broadcast_then_gossip_sends_everything_to_unknown_neighbor() {
    let mut a = with_neighbors("A", &["B"]);
    let out = a
        .step(msg("c1", "A", Some(5), None, BroadcastPayload::Broadcast { message: 42 }))
        .unwrap();
    assert_eq!(out.len(), 1);
    assert!(matches!(out[0].body.payload, BroadcastPayload::BroadcastOk));
    assert_eq!(out[0].src, "A");
    assert_eq!(out[0].dst, "c1");
    assert_eq!(out[0].body.in_reply_to, Some(5));
    assert!(read_values(&mut a).contains(&42));

    let next = a.next_msg_id();
    let out = a.step(tick()).unwrap();
    assert_eq!(out.len(), 1);
    assert_eq!(out[0].dst, "B");
    assert_eq!(out[0].body.id, Some(next));
    assert_eq!(out[0].body.in_reply_to, None);
    match &out[0].body.payload {
        BroadcastPayload::Gossip { known } => assert_eq!(known, &set(&[42])),
        _ => panic!("expected gossip"),
    }
    assert_eq!(a.pending(next), Some(&set(&[42])));
}

#[test]
fn gossip_merges_values_and_sender_knowledge() {
    let mut a = node("A");
    a.step(msg("c1", "A", Some(1), None, BroadcastPayload::Broadcast { message: 1 }))
        .unwrap();
    assert_eq!(a.messages(), &set(&[1]));
    let out = a
        .step(msg("C", "A", Some(3), None, BroadcastPayload::Gossip { known: set(&[7, 8]) }))
        .unwrap();
    assert!(out.is_empty());
    assert_eq!(a.messages(), &set(&[1, 7, 8]));
    let known_c = a.known_to(&"C".to_string()).unwrap();
    assert!(known_c.contains(&7) && known_c.contains(&8));
}

#[test]
fn topology_sets_gossip_targets_in_order() {
    let mut a = node("A");
    let out = a
        .step(msg("c1", "A", Some(4), None, topology(&[("A", &["B", "C"]), ("B", &["A"])])))
        .unwrap();
    assert_eq!(out.len(), 1);
    assert!(matches!(out[0].body.payload, BroadcastPayload::TopologyOk));
    assert_eq!(out[0].body.in_reply_to, Some(4));
    assert_eq!(a.neighbors(), &vec!["B".to_string(), "C".to_string()]);
    for _ in 0..2 {
        let out = a.step(tick()).unwrap();
        let targets: Vec<&str> = out.iter().map(|m| m.dst.as_str()).collect();
        assert_eq!(targets, vec!["B", "C"]);
    }
}

#[test]
fn topology_without_this_node_is_refused() {
    let mut a = node("A");
    let r = a.step(msg("c1", "A", Some(4), None, topology(&[("B", &["A"])])));
    assert_eq!(r.err(), Some(NodeError::NotInTopology));
    assert!(a.neighbors().is_empty());
    assert_eq!(a.next_msg_id(), 0);
}

#[test]
fn acknowledgement_settles_pending_gossip() {
    let mut a = with_neighbors("A", &["B"]);
    a.step(msg("c1", "A", Some(1), None, BroadcastPayload::Broadcast { message: 3 }))
        .unwrap();
    let out = a.step(tick()).unwrap();
    let id = out[0].body.id.unwrap();
    assert_eq!(a.pending(id), Some(&set(&[3])));
    assert!(a.known_to(&"B".to_string()).is_none());
    let out = a
        .step(msg("B", "A", None, Some(id), BroadcastPayload::GossipOk))
        .unwrap();
    assert!(out.is_empty());
    assert_eq!(a.pending(id), None);
    assert!(a.known_to(&"B".to_string()).unwrap().contains(&3));
    // B is now known to hold 3: the next round sends it nothing.
    let out = a.step(tick()).unwrap();
    match &out[0].body.payload {
        BroadcastPayload::Gossip { known } => assert!(known.is_empty()),
        _ => panic!("expected gossip"),
    }
}

#[test]
fn unknown_acknowledgement_is_refused() {
    let mut a = with_neighbors("A", &["B"]);
    let before = a.next_msg_id();
    let r = a.step(msg("B", "A", None, Some(77), BroadcastPayload::GossipOk));
    assert_eq!(r.err(), Some(NodeError::UnknownGossipAck { in_reply_to: 77 }));
    assert_eq!(a.next_msg_id(), before);
    assert!(a.known_to(&"B".to_string()).is_none());
}

#[test]
fn acknowledgement_without_correlation_is_refused() {
    let mut a = node("A");
    let r = a.step(msg("B", "A", None, None, BroadcastPayload::GossipOk));
    assert_eq!(r.err(), Some(NodeError::MissingInReplyTo));
}

#[test]
fn same_gossip_twice_changes_nothing_more() {
    let mut a = node("A");
    a.step(msg("C", "A", None, None, BroadcastPayload::Gossip { known: set(&[2, 4]) }))
        .unwrap();
    let messages_once = a.messages().clone();
    let known_once = a.known_to(&"C".to_string()).unwrap().clone();
    a.step(msg("C", "A", None, None, BroadcastPayload::Gossip { known: set(&[2, 4]) }))
        .unwrap();
    assert_eq!(a.messages(), &messages_once);
    assert_eq!(a.known_to(&"C".to_string()).unwrap(), &known_once);
}

#[test]
fn values_are_never_lost() {
    let mut a = node("A");
    let mut seen: HashSet<usize> = HashSet::new();
    let events = vec![
        BroadcastPayload::Broadcast { message: 5 },
        BroadcastPayload::Gossip { known: set(&[1, 2]) },
        BroadcastPayload::Broadcast { message: 5 },
        BroadcastPayload::Gossip { known: set(&[]) },
        BroadcastPayload::Gossip { known: set(&[2, 9]) },
    ];
    for (k, payload) in events.into_iter().enumerate() {
        a.step(msg("n2", "A", Some(k), None, payload)).unwrap();
        assert!(seen.is_subset(a.messages()));
        seen = a.messages().clone();
    }
    assert_eq!(seen, set(&[1, 2, 5, 9]));
}

#[test]
fn replies_to_replies_are_ignored() {
    let mut a = node("A");
    for payload in vec![
        BroadcastPayload::BroadcastOk,
        BroadcastPayload::TopologyOk,
        BroadcastPayload::ReadOk { messages: set(&[1]) },
    ] {
        assert!(a.step(msg("B", "A", None, Some(0), payload)).unwrap().is_empty());
    }
    assert!(a.messages().is_empty());
    assert_eq!(a.next_msg_id(), 0);
}

#[test]
fn gossip_ids_are_fresh_and_consecutive() {
    let mut a = with_neighbors("A", &["B", "C", "D"]);
    let first = a.next_msg_id();
    let out = a.step(tick()).unwrap();
    let ids: Vec<Option<usize>> = out.iter().map(|m| m.body.id).collect();
    assert_eq!(ids, vec![Some(first), Some(first + 1), Some(first + 2)]);
    assert_eq!(a.next_msg_id(), first + 3);
}

/// Delivers every message of `out` to its addressee among `nodes`.
fn deliver(nodes: &mut Vec<BroadcastNode>, out: Vec<Message<BroadcastPayload>>) {
    for m in out {
        if let Some(target) = nodes.iter_mut().find(|n| n.node_id() == &m.dst) {
            let reply = target.step(Event::Message(m)).unwrap();
            assert!(reply.is_empty());
        }
    }
}

#[test]
fn gossip_converges_on_a_connected_line() {
    let ids = ["n1", "n2", "n3", "n4"];
    let layout: Vec<(&str, &[&str])> = vec![
        ("n1", &["n2"]),
        ("n2", &["n1", "n3"]),
        ("n3", &["n2", "n4"]),
        ("n4", &["n3"]),
    ];
    let mut nodes: Vec<BroadcastNode> = ids.iter().map(|id| node(id)).collect();
    for n in nodes.iter_mut() {
        let id = n.node_id().clone();
        n.step(msg("c1", &id, Some(0), None, topology(&layout))).unwrap();
    }
    nodes[0]
        .step(msg("c1", "n1", Some(1), None, BroadcastPayload::Broadcast { message: 10 }))
        .unwrap();
    nodes[3]
        .step(msg("c1", "n4", Some(1), None, BroadcastPayload::Broadcast { message: 40 }))
        .unwrap();
    nodes[2]
        .step(msg("c1", "n3", Some(1), None, BroadcastPayload::Broadcast { message: 30 }))
        .unwrap();
    let all = set(&[10, 30, 40]);
    let mut ticks = 0;
    while !nodes.iter().all(|n| n.messages() == &all) {
        assert!(ticks < ids.len(), "no convergence within the tick budget");
        for k in 0..nodes.len() {
            let out = nodes[k].step(tick()).unwrap();
            deliver(&mut nodes, out);
        }
        ticks += 1;
    }
    for n in nodes.iter_mut() {
        assert_eq!(read_values(n), all);
    }
}

#[test]
fn gossip_tick_keeps_earlier_pending_messages() {
    let mut a = with_neighbors("A", &["B"]);
    a.step(msg("c1", "A", Some(1), None, BroadcastPayload::Broadcast { message: 8 }))
        .unwrap();
    let first = a.step(tick()).unwrap()[0].body.id.unwrap();
    a.step(msg("c1", "A", Some(2), None, BroadcastPayload::Broadcast { message: 9 }))
        .unwrap();
    let second = a.step(tick()).unwrap()[0].body.id.unwrap();
    assert_ne!(first, second);
    assert_eq!(a.pending(first), Some(&set(&[8])));
    assert_eq!(a.pending(second), Some(&set(&[8, 9])));
}

#[test]
fn same_gossip_event_twice_sends_nothing_and_changes_nothing() {
    let mut a = with_neighbors("A", &["B"]);
    a.step(msg("B", "A", None, None, BroadcastPayload::Gossip { known: set(&[3]) }))
        .unwrap();
    let next = a.next_msg_id();
    let out = a
        .step(msg("B", "A", None, None, BroadcastPayload::Gossip { known: set(&[3]) }))
        .unwrap();
    assert!(out.is_empty());
    assert_eq!(a.messages(), &set(&[3]));
    assert_eq!(a.known_to(&"B".to_string()), Some(&set(&[3])));
    assert_eq!(a.next_msg_id(), next);
}
