use dist_sys::message::{
    BroadcastPayload, GossipPayload, InitMessage, Message, MessageKind, Payload, TopologyPayload,
};
use dist_sys::node::MultiNodeBroadcastNode;
use dist_sys::runtime::Runtime;

fn envelope(
    source: &str,
    destination: &str,
    kind: MessageKind,
    message_id: Option<u32>,
) -> Message<MessageKind> {
    Message {
        source: source.to_string(),
        destination: destination.to_string(),
        payload: Payload {
            message_type: kind,
            message_id,
            in_reply_to: None,
        },
    }
}

fn init_kind(node_id: &str, node_ids: &[&str]) -> MessageKind {
    MessageKind::Init(InitMessage {
        node_id: node_id.to_string(),
        node_ids: node_ids.iter().map(|s| s.to_string()).collect(),
    })
}

fn topology_kind(entries: &[(&str, &[&str])]) -> MessageKind {
    MessageKind::Topology(TopologyPayload {
        topology: entries
            .iter()
            .map(|(k, v)| (k.to_string(), v.iter().map(|s| s.to_string()).collect()))
            .collect(),
    })
}

fn initialised_runtime(node_id: &str, node_ids: &[&str]) -> Runtime {
    let mut runtime = Runtime::new(MultiNodeBroadcastNode::new());
    let burst = runtime.handle_envelope(envelope("c1", node_id, init_kind(node_id, node_ids), Some(1)));
    assert_eq!(burst.len(), 1);
    runtime
}

#[test]
fn init_ok_scenario() {
    let mut runtime = Runtime::new(MultiNodeBroadcastNode::new());
    let burst =
        runtime.handle_envelope(envelope("c1", "n1", init_kind("n1", &["n1", "n2"]), Some(1)));
    assert_eq!(burst.len(), 1);
    let reply = &burst[0];
    assert_eq!(reply.source, "n1");
    assert_eq!(reply.destination, "c1");
    assert!(matches!(reply.payload.message_type, MessageKind::InitOk));
    assert_eq!(reply.payload.in_reply_to, Some(1));
    assert_eq!(reply.payload.message_id, Some(1));
}

#[test]
fn topology_then_broadcast() {
    let mut runtime = initialised_runtime("n1", &["n1", "n2"]);
    let burst = runtime.handle_envelope(envelope(
        "c1",
        "n1",
        topology_kind(&[("n1", &["n2"])]),
        Some(2),
    ));
    assert_eq!(burst.len(), 1);
    assert!(matches!(burst[0].payload.message_type, MessageKind::TopologyOk));
    assert_eq!(burst[0].payload.in_reply_to, Some(2));

    let burst = runtime.handle_envelope(envelope(
        "c1",
        "n1",
        MessageKind::Broadcast(BroadcastPayload { message: 5 }),
        Some(3),
    ));
    assert_eq!(burst.len(), 2);
    match &burst[0].payload.message_type {
        MessageKind::Gossip(g) => {
            assert_eq!(burst[0].destination, "n2");
            assert_eq!(g.values, vec![5]);
            let mut informed = g.informed.clone();
            informed.sort();
            assert_eq!(informed, vec!["n1".to_string(), "n2".to_string()]);
        }
        other_kind => panic!("expected a gossip send, got {:?}", kind_name(other_kind)),
    }
    assert!(burst[0].payload.in_reply_to.is_none());
    assert!(matches!(burst[1].payload.message_type, MessageKind::BroadcastOk));
    assert_eq!(burst[1].payload.in_reply_to, Some(3));
    assert_eq!(burst[1].destination, "c1");
}

fn kind_name(kind: &MessageKind) -> &'static str {
    match kind {
        MessageKind::Init(_) => "init",
        MessageKind::InitOk => "init_ok",
        MessageKind::Error(_) => "error",
        MessageKind::Broadcast(_) => "broadcast",
        MessageKind::BroadcastOk => "broadcast_ok",
        MessageKind::Read => "read",
        MessageKind::ReadOk(_) => "read_ok",
        MessageKind::Topology(_) => "topology",
        MessageKind::TopologyOk => "topology_ok",
        MessageKind::Gossip(_) => "gossip",
    }
}

#[test]
fn read_after_broadcast() {
    let mut runtime = initialised_runtime("n1", &["n1", "n2"]);
    runtime.handle_envelope(envelope("c1", "n1", topology_kind(&[("n1", &["n2"])]), Some(2)));
    runtime.handle_envelope(envelope(
        "c1",
        "n1",
        MessageKind::Broadcast(BroadcastPayload { message: 5 }),
        Some(3),
    ));
    let burst = runtime.handle_envelope(envelope("c1", "n1", MessageKind::Read, Some(4)));
    assert_eq!(burst.len(), 1);
    match &burst[0].payload.message_type {
        MessageKind::ReadOk(p) => assert_eq!(p.messages, vec![5]),
        other_kind => panic!("expected read_ok, got {:?}", kind_name(other_kind)),
    }
    assert_eq!(burst[0].payload.in_reply_to, Some(4));
}

#[test]
fn broadcast_before_init() {
    let mut runtime = Runtime::new(MultiNodeBroadcastNode::new());
    let burst = runtime.handle_envelope(envelope(
        "c1",
        "n1",
        MessageKind::Broadcast(BroadcastPayload { message: 5 }),
        Some(1),
    ));
    assert_eq!(burst.len(), 1);
    match &burst[0].payload.message_type {
        MessageKind::Error(e) => assert_eq!(e.code, 1002),
        other_kind => panic!("expected an error, got {:?}", kind_name(other_kind)),
    }
    assert_eq!(burst[0].payload.in_reply_to, Some(1));
    assert_eq!(burst[0].source, "");
    assert!(runtime.node.messages.is_empty());
}

#[test]
fn wrong_destination_error() {
    let mut runtime = initialised_runtime("n1", &["n1", "n2"]);
    let burst = runtime.handle_envelope(envelope(
        "c1",
        "n9",
        MessageKind::Broadcast(BroadcastPayload { message: 5 }),
        Some(2),
    ));
    assert_eq!(burst.len(), 1);
    match &burst[0].payload.message_type {
        MessageKind::Error(e) => assert_eq!(e.code, 1001),
        other_kind => panic!("expected an error, got {:?}", kind_name(other_kind)),
    }
    assert_eq!(burst[0].source, "");
    assert_eq!(burst[0].destination, "c1");
    assert_eq!(burst[0].payload.in_reply_to, Some(2));
    assert!(runtime.node.messages.is_empty());
}

#[test]
fn gossip_delivered_twice() {
    // n2 has no entry in the assigned topology, so its neighbour list is
    // empty: the same gossip twice leaves exactly one copy of the value and
    // provokes no forwarding either time.
    let mut runtime = initialised_runtime("n2", &["n1", "n2"]);
    runtime.handle_envelope(envelope("c1", "n2", topology_kind(&[("n1", &["n2"])]), Some(2)));
    for _ in 0..2 {
        let gossip = MessageKind::Gossip(GossipPayload {
            values: vec![5],
            informed: vec!["n2".to_string()],
        });
        let burst = runtime.handle_envelope(envelope("n1", "n2", gossip, None));
        assert!(burst.is_empty());
        assert_eq!(runtime.node.messages, vec![5]);
    }
}

#[test]
fn gossip_relay_prunes_informed() {
    let mut runtime = initialised_runtime("n2", &["n1", "n2", "n3"]);
    runtime.handle_envelope(envelope(
        "c1",
        "n2",
        topology_kind(&[("n2", &["n1", "n3"])]),
        Some(2),
    ));
    for _ in 0..2 {
        let gossip = MessageKind::Gossip(GossipPayload {
            values: vec![5],
            informed: vec!["n2".to_string(), "n3".to_string()],
        });
        let burst = runtime.handle_envelope(envelope("n3", "n2", gossip, None));
        // n3 is already informed; only n1 is reached, with the merged store
        // and the informed list grown by n2's neighbours.
        assert_eq!(burst.len(), 1);
        assert_eq!(burst[0].destination, "n1");
        match &burst[0].payload.message_type {
            MessageKind::Gossip(g) => {
                assert_eq!(g.values, vec![5]);
                let mut informed = g.informed.clone();
                informed.sort();
                assert_eq!(
                    informed,
                    vec!["n1".to_string(), "n2".to_string(), "n3".to_string()]
                );
            }
            other_kind => panic!("expected a gossip send, got {:?}", kind_name(other_kind)),
        }
        assert!(burst[0].payload.in_reply_to.is_none());
        assert_eq!(runtime.node.messages, vec![5]);
    }
}

#[test]
fn message_ids_strictly_increase() {
    let mut runtime = Runtime::new(MultiNodeBroadcastNode::new());
    let mut ids: Vec<u32> = Vec::new();
    let bursts = vec![
        runtime.handle_envelope(envelope("c1", "n1", init_kind("n1", &["n1", "n2"]), Some(1))),
        runtime.handle_envelope(envelope(
            "c1",
            "n1",
            topology_kind(&[("n1", &["n2"])]),
            Some(2),
        )),
        runtime.handle_envelope(envelope(
            "c1",
            "n1",
            MessageKind::Broadcast(BroadcastPayload { message: 7 }),
            Some(3),
        )),
        runtime.handle_envelope(envelope("c1", "n1", MessageKind::Read, Some(4))),
    ];
    for burst in bursts {
        for message in burst {
            ids.push(message.payload.message_id.expect("every outbound envelope carries an id"));
        }
    }
    assert_eq!(ids, (1..=ids.len() as u32).collect::<Vec<u32>>());
}

#[test]
fn double_init_keeps_identity() {
    let mut runtime = initialised_runtime("n1", &["n1", "n2"]);
    let burst =
        runtime.handle_envelope(envelope("c1", "n1", init_kind("n9", &["n9"]), Some(2)));
    assert_eq!(burst.len(), 1);
    assert!(matches!(burst[0].payload.message_type, MessageKind::InitOk));
    // the identity set by the first init still signs the replies
    assert_eq!(burst[0].source, "n1");
    let burst = runtime.handle_envelope(envelope("c1", "n1", MessageKind::Read, Some(3)));
    assert_eq!(burst[0].source, "n1");
}

#[test]
fn double_topology_first_wins() {
    let mut runtime = initialised_runtime("n1", &["n1", "n2", "n3"]);
    runtime.handle_envelope(envelope("c1", "n1", topology_kind(&[("n1", &["n2"])]), Some(2)));
    let burst = runtime.handle_envelope(envelope(
        "c1",
        "n1",
        topology_kind(&[("n1", &["n3"])]),
        Some(3),
    ));
    assert_eq!(burst.len(), 1);
    assert!(matches!(burst[0].payload.message_type, MessageKind::TopologyOk));
    let burst = runtime.handle_envelope(envelope(
        "c1",
        "n1",
        MessageKind::Broadcast(BroadcastPayload { message: 1 }),
        Some(4),
    ));
    assert_eq!(burst.len(), 2);
    assert_eq!(burst[0].destination, "n2");
}

#[test]
fn broadcast_without_topology_degrades() {
    let mut runtime = initialised_runtime("n1", &["n1"]);
    let burst = runtime.handle_envelope(envelope(
        "c1",
        "n1",
        MessageKind::Broadcast(BroadcastPayload { message: 9 }),
        Some(2),
    ));
    // no neighbour list yet: no fan-out, just the acknowledgement
    assert_eq!(burst.len(), 1);
    assert!(matches!(burst[0].payload.message_type, MessageKind::BroadcastOk));
    assert_eq!(runtime.node.messages, vec![9]);
}

#[test]
fn monotonic_growth_across_inputs() {
    let mut runtime = initialised_runtime("n1", &["n1", "n2"]);
    runtime.handle_envelope(envelope("c1", "n1", topology_kind(&[("n1", &["n2"])]), Some(2)));
    let mut seen: Vec<Vec<i32>> = Vec::new();
    runtime.handle_envelope(envelope(
        "c1",
        "n1",
        MessageKind::Broadcast(BroadcastPayload { message: 1 }),
        Some(3),
    ));
    seen.push(runtime.node.messages.clone());
    runtime.handle_envelope(envelope(
        "n2",
        "n1",
        MessageKind::Gossip(GossipPayload { values: vec![2, 3], informed: vec![] }),
        None,
    ));
    seen.push(runtime.node.messages.clone());
    runtime.handle_envelope(envelope(
        "c1",
        "n1",
        MessageKind::Broadcast(BroadcastPayload { message: 2 }),
        Some(4),
    ));
    seen.push(runtime.node.messages.clone());
    assert_eq!(seen[0], vec![1]);
    assert_eq!(seen[1], vec![1, 2, 3]);
    // the duplicate broadcast of 2 neither grows nor shrinks the store
    assert_eq!(seen[2], vec![1, 2, 3]);
    for window in seen.windows(2) {
        for value in &window[0] {
            assert!(window[1].contains(value));
        }
    }
}

#[test]
fn two_node_convergence() {
    let all = &["n1", "n2"];
    let topology: &[(&str, &[&str])] = &[("n1", &["n2"]), ("n2", &["n1"])];
    let mut n1 = Runtime::new(MultiNodeBroadcastNode::new());
    let mut n2 = Runtime::new(MultiNodeBroadcastNode::new());
    n1.handle_envelope(envelope("c1", "n1", init_kind("n1", all), Some(1)));
    n2.handle_envelope(envelope("c1", "n2", init_kind("n2", all), Some(1)));
    n1.handle_envelope(envelope("c1", "n1", topology_kind(topology), Some(2)));
    n2.handle_envelope(envelope("c1", "n2", topology_kind(topology), Some(2)));

    let mut pending: Vec<Message<MessageKind>> = Vec::new();
    pending.extend(n1.handle_envelope(envelope(
        "c1",
        "n1",
        MessageKind::Broadcast(BroadcastPayload { message: 5 }),
        Some(3),
    )));
    pending.extend(n2.handle_envelope(envelope(
        "c1",
        "n2",
        MessageKind::Broadcast(BroadcastPayload { message: 7 }),
        Some(3),
    )));
    // deliver every inter-node message, with no loss, until quiescence
    while let Some(message) = pending.pop() {
        match message.destination.as_str() {
            "n1" => pending.extend(n1.handle_envelope(message)),
            "n2" => pending.extend(n2.handle_envelope(message)),
            _ => {} // a reply to the client, not delivered to a node
        }
    }
    let mut store1 = n1.node.messages.clone();
    let mut store2 = n2.node.messages.clone();
    store1.sort();
    store2.sort();
    assert_eq!(store1, vec![5, 7]);
    assert_eq!(store2, vec![5, 7]);
}

#[test]
fn line_topology_convergence() {
    // n1 - n2 - n3: a value broadcast at n1 must be relayed through n2
    let all = &["n1", "n2", "n3"];
    let topology: &[(&str, &[&str])] =
        &[("n1", &["n2"]), ("n2", &["n1", "n3"]), ("n3", &["n2"])];
    let mut nodes: Vec<Runtime> = (1..=3)
        .map(|i| {
            let mut runtime = Runtime::new(MultiNodeBroadcastNode::new());
            let id = format!("n{i}");
            runtime.handle_envelope(envelope("c1", &id, init_kind(&id, all), Some(1)));
            runtime.handle_envelope(envelope("c1", &id, topology_kind(topology), Some(2)));
            runtime
        })
        .collect();

    let mut pending = nodes[0].handle_envelope(envelope(
        "c1",
        "n1",
        MessageKind::Broadcast(BroadcastPayload { message: 42 }),
        Some(3),
    ));
    while let Some(message) = pending.pop() {
        let target = match message.destination.as_str() {
            "n1" => 0,
            "n2" => 1,
            "n3" => 2,
            _ => continue,
        };
        pending.extend(nodes[target].handle_envelope(message));
    }
    for runtime in &nodes {
        assert_eq!(runtime.node.messages, vec![42]);
    }
}

#[test]
fn read_on_empty_store() {
    let mut runtime = initialised_runtime("n1", &["n1"]);
    let burst = runtime.handle_envelope(envelope("c1", "n1", MessageKind::Read, Some(2)));
    assert_eq!(burst.len(), 1);
    match &burst[0].payload.message_type {
        MessageKind::ReadOk(p) => assert!(p.messages.is_empty()),
        other_kind => panic!("expected read_ok, got {:?}", kind_name(other_kind)),
    }
}

#[test]
fn gossip_with_empty_values() {
    let mut runtime = initialised_runtime("n1", &["n1", "n2"]);
    runtime.handle_envelope(envelope("c1", "n1", topology_kind(&[("n1", &["n2"])]), Some(2)));
    let burst = runtime.handle_envelope(envelope(
        "n2",
        "n1",
        MessageKind::Gossip(GossipPayload { values: vec![], informed: vec![] }),
        None,
    ));
    // nothing to merge, but the wave still reaches the uninformed neighbour
    assert_eq!(burst.len(), 1);
    assert_eq!(burst[0].destination, "n2");
    assert!(runtime.node.messages.is_empty());
}

#[test]
fn request_without_msg_id_gets_uncorrelated_reply() {
    let mut runtime = initialised_runtime("n1", &["n1"]);
    let burst = runtime.handle_envelope(envelope("c1", "n1", MessageKind::Read, None));
    assert_eq!(burst.len(), 1);
    assert_eq!(burst[0].payload.in_reply_to, None);
    assert_eq!(burst[0].payload.message_id, Some(2));
}

#[test]
fn gossip_accepted_without_topology() {
    let mut runtime = initialised_runtime("n1", &["n1", "n2"]);
    let burst = runtime.handle_envelope(envelope(
        "n2",
        "n1",
        MessageKind::Gossip(GossipPayload { values: vec![4], informed: vec![] }),
        None,
    ));
    assert!(burst.is_empty());
    assert_eq!(runtime.node.messages, vec![4]);
}
