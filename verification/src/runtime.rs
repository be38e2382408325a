//! The dispatch runtime: takes one envelope at a time, validates it — the
//! destination must be this node once an identity is set, and nothing but
//! `Init` is handled before an identity is set — answers `Init` itself, and
//! routes every other request kind to the broadcast node. Each envelope
//! yields a bounded burst of outbound envelopes, returned in send order; the
//! loop that feeds envelopes in and writes the burst out lives outside the
//! library.

use vstd::prelude::*;

use crate::message::{
    error_message, sent_message, Message, MessageKind, Payload, UNINITIALISED, WRONG_NODE,
};
use crate::node::{
    broadcast_post, gossip_post, read_post, topology_post, MultiNodeBroadcastNode,
};
use crate::sender::{MessageSender, NodeInformation, SenderInformation};

verus! {

/// The dispatch runtime: the broadcast node it drives and the sending
/// capability holding the cluster identity and the message-id counter.
pub struct Runtime {
    pub node: MultiNodeBroadcastNode,
    pub sender: MessageSender<MessageKind>,
}

impl Runtime {
    /// Well-formed between envelopes: node and sender well-formed, no
    /// outbound envelope left queued.
    pub open spec fn wf(&self) -> bool {
        &&& self.node.wf()
        &&& self.sender.wf()
        &&& self.sender.outbound@.len() == 0
    }

    /// Whether the first `Init` has established a cluster identity.
    pub open spec fn initialized(&self) -> bool {
        self.sender.node_information is Some
    }

    /// This node's own id; meaningful only once initialised.
    pub open spec fn self_id(&self) -> Seq<char> {
        self.sender.spec_self_id()
    }

    /// The sender state as it stands while `message` is being dispatched:
    /// the envelope's source and message id are recorded for replying.
    pub open spec fn dispatching_sender(
        &self,
        message: Message<MessageKind>,
    ) -> MessageSender<MessageKind> {
        MessageSender {
            sender_information: Some(
                SenderInformation {
                    source: message.source,
                    message_id: message.payload.message_id,
                },
            ),
            ..self.sender
        }
    }

    /// A runtime driving the given node: counter at 0, no identity yet.
    pub fn new(node: MultiNodeBroadcastNode) -> (r: Runtime)
        requires
            node.wf(),
        ensures
            r.wf(),
            r.node == node,
            !r.initialized(),
            r.sender.message_id == 0,
            r.sender.history@ == Seq::<u32>::empty(),
    {
        Runtime { node, sender: MessageSender::new() }
    }

    /// Dispatches one inbound envelope and returns the burst of outbound
    /// envelopes it provoked, in send order.
    ///
    /// An envelope not addressed to an initialised node yields only
    /// `Error{WRONG_NODE}`; any request but `Init` before initialisation
    /// yields only `Error{UNINITIALISED}`; `Init` is answered by the runtime
    /// itself — the first one sets the identity, later ones are re-accepted
    /// without resetting it; everything else goes to the broadcast node.
    /// Every burst envelope carries the next consecutive counter id, and
    /// every one but gossip is correlated to the inbound message id.
    pub fn handle_envelope(&mut self, message: Message<MessageKind>) -> (burst: Vec<
        Message<MessageKind>,
    >)
        requires
            old(self).wf(),
            message.payload.message_type.is_request(),
            old(self).sender.message_id + old(self).node.neighbour_seq().len() + 1 <= u32::MAX,
        ensures
            final(self).wf(),
            // the counter advances by exactly one id per outbound envelope
            final(self).sender.message_id == old(self).sender.message_id + burst@.len(),
            burst@.len() <= old(self).node.neighbour_seq().len() + 1,
            // ids are consecutive counter values: fresh, strictly increasing
            forall|k: int|
                0 <= k < burst@.len() ==> (#[trigger] burst@[k]).payload.message_id == Some(
                    (old(self).sender.message_id + 1 + k) as u32,
                ),
            // replies are correlated to the inbound id; gossip never is
            forall|k: int|
                0 <= k < burst@.len() ==> (#[trigger] burst@[k]).payload.in_reply_to == (
                if burst@[k].payload.message_type is Gossip {
                    None::<u32>
                } else {
                    message.payload.message_id
                }),
            // the value store never shrinks
            old(self).node.values().subset_of(final(self).node.values()),
            // an identity, once set, is never reset or replaced
            old(self).initialized() ==> final(self).sender.node_information == old(self).sender.node_information,
            // destination guard
            (old(self).initialized() && message.destination@ != old(self).self_id()) ==> {
                &&& burst@.len() == 1
                &&& error_message(
                    burst@[0],
                    message.source@,
                    WRONG_NODE,
                    (old(self).sender.message_id + 1) as u32,
                    message.payload.message_id,
                )
                &&& final(self).node == old(self).node
            },
            // uninitialised guard
            (!old(self).initialized() && !(message.payload.message_type is Init)) ==> {
                &&& burst@.len() == 1
                &&& error_message(
                    burst@[0],
                    message.source@,
                    UNINITIALISED,
                    (old(self).sender.message_id + 1) as u32,
                    message.payload.message_id,
                )
                &&& final(self).node == old(self).node
                &&& !final(self).initialized()
            },
            // `Init`: handled by the runtime itself, first writer wins
            message.payload.message_type matches MessageKind::Init(init) ==> !(old(self).initialized() && message.destination@ != old(self).self_id()) ==> {
                &&& final(self).initialized()
                &&& (!old(self).initialized() ==> (final(self).sender.node_information
                    matches Some(ni) && ni.id == init.node_id && ni.all_ids == init.node_ids))
                &&& final(self).node == old(self).node
                &&& burst@.len() == 1
                &&& sent_message(
                    burst@[0],
                    final(self).self_id(),
                    message.source@,
                    MessageKind::InitOk,
                    (old(self).sender.message_id + 1) as u32,
                    message.payload.message_id,
                )
            },
            // everything else: routed to the broadcast node
            (old(self).initialized() && message.destination@ == old(self).self_id() && !(
            message.payload.message_type is Init)) ==> {
                let pres = old(self).dispatching_sender(message);
                let posts = (MessageSender { outbound: burst, ..final(self).sender });
                &&& (message.payload.message_type matches MessageKind::Broadcast(p)
                    ==> broadcast_post(old(self).node, final(self).node, pres, posts, p.message))
                &&& (message.payload.message_type is Read ==> final(self).node == old(self).node
                    && read_post(old(self).node, pres, posts))
                &&& (message.payload.message_type matches MessageKind::Topology(p)
                    ==> topology_post(old(self).node, final(self).node, pres, posts, p.topology@))
                &&& (message.payload.message_type matches MessageKind::Gossip(p) ==> gossip_post(
                    old(self).node,
                    final(self).node,
                    pres,
                    posts,
                    p.values@,
                    p.informed@,
                ))
            },
    {
        let Message { source, destination, payload } = message;
        let Payload { message_type, message_id, in_reply_to: _ } = payload;
        self.sender.register_sender_information(source.clone(), message_id);
        let wrong_destination = match &self.sender.node_information {
            Some(node_information) => !node_information.id.eq(&destination),
            None => false,
        };
        let is_init = match &message_type {
            MessageKind::Init(_) => true,
            _ => false,
        };
        let initialized = self.sender.node_information.is_some();
        if wrong_destination {
            self.sender.send_error(source, message_id, WRONG_NODE);
        } else if !initialized && !is_init {
            self.sender.send_error(source, message_id, UNINITIALISED);
        } else {
            match message_type {
                MessageKind::Init(init) => {
                    if self.sender.node_information.is_none() {
                        self.sender.register_node_information(NodeInformation::from(init));
                    }
                    self.sender.reply(MessageKind::InitOk);
                },
                other => {
                    self.node.handle_message(other, &mut self.sender);
                },
            }
        }
        proof {
            if message.payload.message_type is Gossip {
                crate::node::lemma_pruned_len(
                    old(self).node.neighbour_seq(),
                    crate::node::id_set(message.payload.message_type->Gossip_0.informed@),
                );
            }
        }
        let mut burst: Vec<Message<MessageKind>> = Vec::new();
        core::mem::swap(&mut burst, &mut self.sender.outbound);
        burst
    }
}

} // verus!
