//! The single-node broadcast service: an earlier, topology-less variant that
//! simply accumulates broadcast values in arrival order and answers reads.
//! It predates the runtime guards and answers every kind — `Init` included —
//! itself.

use vstd::prelude::*;

use crate::message::{MessageKind, ReadOkPayload};
use crate::node::clone_values;
use crate::sender::{MessageSender, NodeInformation};

verus! {

/// A node of the single-node broadcast service: just the values received so
/// far, in arrival order.
pub struct SingleNodeBroadcastNode {
    pub messages: Vec<i32>,
}

impl SingleNodeBroadcastNode {
    /// A fresh node with an empty store.
    pub fn new() -> (r: Self)
        ensures
            r.messages@ == Seq::<i32>::empty(),
    {
        SingleNodeBroadcastNode { messages: Vec::new() }
    }

    /// Handles one typed payload and replies to it: `Init` registers the
    /// assigned identity, `Broadcast` appends the value, `Read` answers with
    /// the accumulated values, `Topology` is acknowledged and ignored.
    pub fn handle_message(&mut self, message: MessageKind, sender: &mut MessageSender<MessageKind>)
        requires
            old(sender).wf(),
            old(sender).sender_information is Some,
            old(sender).message_id < u32::MAX,
            message is Init || message is Broadcast || message is Read || message is Topology,
            !(message is Init) ==> old(sender).node_information is Some,
        ensures
            final(sender).wf(),
            final(sender).message_id == old(sender).message_id + 1,
            final(sender).sender_information is None,
            final(sender).outbound@.len() == old(sender).outbound@.len() + 1,
            final(sender).outbound@.drop_last() == old(sender).outbound@,
            (message matches MessageKind::Broadcast(p) ==> final(self).messages@ == old(self).messages@.push(p.message)),
            (!(message is Broadcast) ==> final(self).messages@ == old(self).messages@),
            (message matches MessageKind::Init(init) ==> (final(sender).node_information
                matches Some(ni) && ni.id == init.node_id && ni.all_ids == init.node_ids)),
            (!(message is Init) ==> final(sender).node_information == old(sender).node_information),
            ({
                let m = final(sender).outbound@.last();
                &&& m.source@ == final(sender).spec_self_id()
                &&& m.destination@ == old(sender).sender_information->0.source@
                &&& m.payload.message_id == Some((old(sender).message_id + 1) as u32)
                &&& m.payload.in_reply_to == old(sender).sender_information->0.message_id
                &&& (message is Init ==> m.payload.message_type is InitOk)
                &&& (message is Broadcast ==> m.payload.message_type is BroadcastOk)
                &&& (message is Read ==> (m.payload.message_type matches MessageKind::ReadOk(p)
                    && p.messages@ == old(self).messages@))
                &&& (message is Topology ==> m.payload.message_type is TopologyOk)
            }),
    {
        match message {
            MessageKind::Init(init) => {
                sender.register_node_information(NodeInformation::from(init));
                sender.reply(MessageKind::InitOk);
            },
            MessageKind::Broadcast(payload) => {
                self.messages.push(payload.message);
                sender.reply(MessageKind::BroadcastOk);
            },
            MessageKind::Read => {
                let snapshot = clone_values(&self.messages);
                sender.reply(MessageKind::ReadOk(ReadOkPayload { messages: snapshot }));
            },
            MessageKind::Topology(_) => {
                sender.reply(MessageKind::TopologyOk);
            },
            _ => {
                unreached()
            },
        }
    }
}

} // verus!
