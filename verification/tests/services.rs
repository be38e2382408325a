use dist_sys::echo::{EchoNode, EchoPayload, InEchoMessage, OutEchoMessage};
use dist_sys::message::{BroadcastPayload, InitMessage, MessageKind, TopologyPayload};
use dist_sys::sender::{MessageSender, SenderInformation};
use dist_sys::single_node::SingleNodeBroadcastNode;
use dist_sys::unique_id::{
    InUniqueIdGenerationMessage, OutUniqueIdGenerationMessage, UniqueIdGenerationNode,
};

fn init_message(node_id: &str) -> InitMessage {
    InitMessage {
        node_id: node_id.to_string(),
        node_ids: vec![node_id.to_string()],
    }
}

fn expect_request<M>(sender: &mut MessageSender<M>, source: &str, message_id: Option<u32>) {
    sender.sender_information = Some(SenderInformation {
        source: source.to_string(),
        message_id,
    });
}

#[test]
fn single_node_accumulates_in_order() {
    let mut node = SingleNodeBroadcastNode::new();
    let mut sender: MessageSender<MessageKind> = MessageSender::new();

    expect_request(&mut sender, "c1", Some(1));
    node.handle_message(MessageKind::Init(init_message("n1")), &mut sender);
    assert!(matches!(
        sender.outbound[0].payload.message_type,
        MessageKind::InitOk
    ));
    assert_eq!(sender.outbound[0].payload.in_reply_to, Some(1));

    for (i, value) in [1, 1, 2].iter().enumerate() {
        expect_request(&mut sender, "c1", Some(2 + i as u32));
        node.handle_message(
            MessageKind::Broadcast(BroadcastPayload { message: *value }),
            &mut sender,
        );
    }
    // this variant keeps duplicates: values are stored in arrival order
    assert_eq!(node.messages, vec![1, 1, 2]);

    expect_request(&mut sender, "c1", Some(5));
    node.handle_message(MessageKind::Read, &mut sender);
    match &sender.outbound.last().unwrap().payload.message_type {
        MessageKind::ReadOk(p) => assert_eq!(p.messages, vec![1, 1, 2]),
        _ => panic!("expected read_ok"),
    }

    expect_request(&mut sender, "c1", Some(6));
    node.handle_message(
        MessageKind::Topology(TopologyPayload { topology: vec![] }),
        &mut sender,
    );
    assert!(matches!(
        sender.outbound.last().unwrap().payload.message_type,
        MessageKind::TopologyOk
    ));
}

#[test]
fn echo_returns_payload() {
    let mut node = EchoNode;
    let mut sender: MessageSender<OutEchoMessage> = MessageSender::new();

    expect_request(&mut sender, "c1", Some(1));
    node.handle_message(InEchoMessage::Init(init_message("n1")), &mut sender);
    assert!(matches!(
        sender.outbound[0].payload.message_type,
        OutEchoMessage::Init
    ));

    expect_request(&mut sender, "c1", Some(2));
    node.handle_message(
        InEchoMessage::Echo(EchoPayload {
            echo: "hello there".to_string(),
        }),
        &mut sender,
    );
    let reply = sender.outbound.last().unwrap();
    assert_eq!(reply.source, "n1");
    assert_eq!(reply.destination, "c1");
    assert_eq!(reply.payload.in_reply_to, Some(2));
    assert_eq!(reply.payload.message_id, Some(2));
    match &reply.payload.message_type {
        OutEchoMessage::Echo(p) => assert_eq!(p.echo, "hello there"),
        _ => panic!("expected an echo_ok reply"),
    }
}

#[test]
fn unique_ids_have_shape_and_differ() {
    let mut node = UniqueIdGenerationNode;
    let mut sender: MessageSender<OutUniqueIdGenerationMessage> = MessageSender::new();

    expect_request(&mut sender, "c1", Some(1));
    node.handle_message(
        InUniqueIdGenerationMessage::Init(init_message("n1")),
        &mut sender,
    );

    let mut ids: Vec<String> = Vec::new();
    for i in 0..2 {
        expect_request(&mut sender, "c1", Some(2 + i));
        node.handle_message(InUniqueIdGenerationMessage::Generate, &mut sender);
        match &sender.outbound.last().unwrap().payload.message_type {
            OutUniqueIdGenerationMessage::Generate(p) => ids.push(p.id.clone()),
            _ => panic!("expected a generate_ok reply"),
        }
    }
    assert_eq!(ids[0].len(), 36);
    assert_eq!(ids[1].len(), 36);
    assert_ne!(ids[0], ids[1]);
}

#[test]
fn sender_replies_consume_the_request() {
    let mut sender: MessageSender<MessageKind> = MessageSender::new();
    sender.register_node_information(dist_sys::sender::NodeInformation {
        id: "n1".to_string(),
        all_ids: vec!["n1".to_string()],
    });
    expect_request(&mut sender, "c9", Some(41));
    sender.reply(MessageKind::InitOk);
    assert!(sender.sender_information.is_none());
    let reply = sender.outbound.last().unwrap();
    assert_eq!(reply.destination, "c9");
    assert_eq!(reply.payload.in_reply_to, Some(41));
    assert_eq!(reply.payload.message_id, Some(1));

    sender.send_to("n2".to_string(), MessageKind::Read);
    let sent = sender.outbound.last().unwrap();
    assert_eq!(sent.destination, "n2");
    assert_eq!(sent.payload.in_reply_to, None);
    assert_eq!(sent.payload.message_id, Some(2));
}
