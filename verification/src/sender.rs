//! The reply/send capability: builds outbound envelopes with the correct
//! source id, a fresh strictly increasing message id, and — for replies — the
//! correlation id of the envelope being answered. Outbound envelopes are
//! queued in call order; the channel that carries them lives outside the
//! library.

use vstd::prelude::*;

use crate::message::{error_message, sent_message, ErrorPayload, Message, MessageKind, Payload};

verus! {

/// The cluster identity of this node, set exactly once by the first `Init`
/// message: its own id and the ordered ids of all nodes in the cluster.
pub struct NodeInformation {
    pub id: String,
    pub all_ids: Vec<String>,
}

impl NodeInformation {
    /// Builds the identity assigned by an `Init` message.
    pub fn from(value: crate::message::InitMessage) -> (r: NodeInformation)
        ensures
            r.id == value.node_id,
            r.all_ids == value.node_ids,
    {
        NodeInformation { id: value.node_id, all_ids: value.node_ids }
    }
}

/// Who sent the envelope currently being dispatched, and under which message
/// id, so that a reply can be addressed and correlated.
pub struct SenderInformation {
    pub source: String,
    pub message_id: Option<u32>,
}

/// Builds and queues outbound envelopes. `message_id` is the process-wide
/// counter: it starts at 0, is incremented before each send, and is never
/// reused or reset, so ids of outbound messages are strictly increasing.
/// `history` records every id ever drawn from the counter.
pub struct MessageSender<OutMessage> {
    pub node_information: Option<NodeInformation>,
    pub sender_information: Option<SenderInformation>,
    pub message_id: u32,
    pub outbound: Vec<Message<OutMessage>>,
    pub history: Ghost<Seq<u32>>,
}

impl<OutMessage> MessageSender<OutMessage> {
    /// The view of this node's own id; meaningful only once initialised.
    pub open spec fn spec_self_id(&self) -> Seq<char> {
        self.node_information->0.id@
    }

    /// Well-formedness: ids ever issued are strictly increasing, none exceeds
    /// the counter, and the queued envelopes carry the most recent ids in
    /// order.
    pub open spec fn wf(&self) -> bool {
        &&& forall|i: int, j: int|
            0 <= i < j < self.history@.len() ==> self.history@[i] < self.history@[j]
        &&& forall|i: int|
            0 <= i < self.history@.len() ==> 1 <= #[trigger] self.history@[i] <= self.message_id
        &&& self.outbound@.len() <= self.history@.len()
        &&& forall|i: int|
            0 <= i < self.outbound@.len() ==> (#[trigger] self.outbound@[i]).payload.message_id
                == Some(
                self.history@[self.history@.len() - self.outbound@.len() + i],
            )
    }

    /// A fresh capability: counter at 0, nothing sent, no identity yet.
    pub fn new() -> (s: Self)
        ensures
            s.wf(),
            s.message_id == 0,
            s.node_information is None,
            s.sender_information is None,
            s.outbound@ == Seq::<Message<OutMessage>>::empty(),
            s.history@ == Seq::<u32>::empty(),
    {
        MessageSender {
            node_information: None,
            sender_information: None,
            message_id: 0,
            outbound: Vec::new(),
            history: Ghost(Seq::empty()),
        }
    }

    /// Records the cluster identity this node was assigned.
    pub fn register_node_information(&mut self, node_information: NodeInformation)
        ensures
            *final(self) == (MessageSender {
                node_information: Some(node_information),
                ..*old(self)
            }),
    {
        self.node_information = Some(node_information);
    }

    /// This node's id, if an identity has been assigned.
    pub fn node_id(&self) -> (r: Option<&str>)
        ensures
            r is Some <==> self.node_information is Some,
            r matches Some(id) ==> id@ == self.spec_self_id(),
    {
        match &self.node_information {
            Some(node_information) => Some(node_information.id.as_str()),
            None => None,
        }
    }

    /// This node's id as an owned string; the node must be initialised.
    pub fn node_id_owned(&self) -> (r: String)
        requires
            self.node_information is Some,
        ensures
            r@ == self.spec_self_id(),
    {
        match &self.node_information {
            Some(node_information) => node_information.id.clone(),
            None => unreached(),
        }
    }

    /// Records who sent the envelope now being dispatched, and under which id.
    pub fn register_sender_information(&mut self, source: String, message_id: Option<u32>)
        ensures
            *final(self) == (MessageSender {
                sender_information: Some(SenderInformation { source, message_id }),
                ..*old(self)
            }),
    {
        self.sender_information = Some(SenderInformation { source, message_id });
    }

    /// Draws the next message id: the counter is incremented before each send,
    /// so the first id issued is 1 and ids never repeat.
    fn get_next_message_id(&mut self) -> (id: u32)
        requires
            old(self).message_id < u32::MAX,
        ensures
            id == old(self).message_id + 1,
            *final(self) == (MessageSender { message_id: id, ..*old(self) }),
    {
        self.message_id = self.message_id + 1;
        self.message_id
    }

    /// Builds one outbound envelope from this node and queues it.
    fn send(&mut self, destination: String, payload: OutMessage, in_reply_to: Option<u32>)
        requires
            old(self).wf(),
            old(self).node_information is Some,
            old(self).message_id < u32::MAX,
        ensures
            final(self).wf(),
            final(self).message_id == old(self).message_id + 1,
            final(self).node_information == old(self).node_information,
            final(self).sender_information == old(self).sender_information,
            final(self).outbound@.len() == old(self).outbound@.len() + 1,
            final(self).outbound@.drop_last() == old(self).outbound@,
            sent_message(
                final(self).outbound@.last(),
                old(self).spec_self_id(),
                destination@,
                payload,
                (old(self).message_id + 1) as u32,
                in_reply_to,
            ),
            final(self).history@ == old(self).history@.push((old(self).message_id + 1) as u32),
    {
        let id = self.get_next_message_id();
        let source = match &self.node_information {
            Some(node_information) => node_information.id.clone(),
            None => unreached(),
        };
        let out_message = Message {
            source,
            destination,
            payload: Payload { message_type: payload, message_id: Some(id), in_reply_to },
        };
        self.outbound.push(out_message);
        self.history = Ghost(self.history@.push(id));
        proof {
            assert(self.outbound@.drop_last() =~= old(self).outbound@);
        }
    }

    /// Answers the envelope currently being dispatched: destination is that
    /// envelope's source, `in_reply_to` its message id. Consumes the recorded
    /// sender information, so each envelope is answered at most once.
    pub fn reply(&mut self, payload: OutMessage)
        requires
            old(self).wf(),
            old(self).sender_information is Some,
            old(self).node_information is Some,
            old(self).message_id < u32::MAX,
        ensures
            final(self).wf(),
            final(self).message_id == old(self).message_id + 1,
            final(self).node_information == old(self).node_information,
            final(self).sender_information is None,
            final(self).outbound@.len() == old(self).outbound@.len() + 1,
            final(self).outbound@.drop_last() == old(self).outbound@,
            sent_message(
                final(self).outbound@.last(),
                old(self).spec_self_id(),
                old(self).sender_information->0.source@,
                payload,
                (old(self).message_id + 1) as u32,
                old(self).sender_information->0.message_id,
            ),
            final(self).history@ == old(self).history@.push((old(self).message_id + 1) as u32),
    {
        let sender_information = match self.sender_information.take() {
            Some(sender_information) => sender_information,
            None => unreached(),
        };
        self.send(sender_information.source, payload, sender_information.message_id);
    }

    /// An unsolicited send to an arbitrary peer: no reply correlation.
    pub fn send_to(&mut self, destination: String, payload: OutMessage)
        requires
            old(self).wf(),
            old(self).node_information is Some,
            old(self).message_id < u32::MAX,
        ensures
            final(self).wf(),
            final(self).message_id == old(self).message_id + 1,
            final(self).node_information == old(self).node_information,
            final(self).sender_information == old(self).sender_information,
            final(self).outbound@.len() == old(self).outbound@.len() + 1,
            final(self).outbound@.drop_last() == old(self).outbound@,
            sent_message(
                final(self).outbound@.last(),
                old(self).spec_self_id(),
                destination@,
                payload,
                (old(self).message_id + 1) as u32,
                None::<u32>,
            ),
            final(self).history@ == old(self).history@.push((old(self).message_id + 1) as u32),
    {
        self.send(destination, payload, None);
    }
}

impl MessageSender<MessageKind> {
    /// Sends a synthesized guard error: an `Error` envelope correlated to the
    /// offending request, with the empty string as source — the deliberate
    /// sentinel for "not a legitimate owner of a message-id space".
    pub fn send_error(&mut self, destination: String, in_reply_to: Option<u32>, code: u16)
        requires
            old(self).wf(),
            old(self).message_id < u32::MAX,
        ensures
            final(self).wf(),
            final(self).message_id == old(self).message_id + 1,
            final(self).node_information == old(self).node_information,
            final(self).sender_information == old(self).sender_information,
            final(self).outbound@.len() == old(self).outbound@.len() + 1,
            final(self).outbound@.drop_last() == old(self).outbound@,
            error_message(
                final(self).outbound@.last(),
                destination@,
                code,
                (old(self).message_id + 1) as u32,
                in_reply_to,
            ),
            final(self).history@ == old(self).history@.push((old(self).message_id + 1) as u32),
    {
        let id = self.get_next_message_id();
        let out_message = Message {
            source: String::new(),
            destination,
            payload: Payload {
                message_type: MessageKind::Error(ErrorPayload { code, text: None }),
                message_id: Some(id),
                in_reply_to,
            },
        };
        self.outbound.push(out_message);
        self.history = Ghost(self.history@.push(id));
        proof {
            assert(self.outbound@.drop_last() =~= old(self).outbound@);
        }
    }
}

/// Law: message ids drawn by one sender are strictly increasing in the order
/// they were issued; in particular no id is ever issued twice.
pub proof fn lemma_message_ids_unique<OutMessage>(s: MessageSender<OutMessage>, i: int, j: int)
    requires
        s.wf(),
        0 <= i < j < s.history@.len(),
    ensures
        s.history@[i] < s.history@[j],
        s.history@[i] != s.history@[j],
{
}

/// Law: two distinct envelopes queued by one sender never carry the same
/// message id.
pub proof fn lemma_outbound_ids_unique<OutMessage>(
    s: MessageSender<OutMessage>,
    i: int,
    j: int,
)
    requires
        s.wf(),
        0 <= i < j < s.outbound@.len(),
    ensures
        s.outbound@[i].payload.message_id != s.outbound@[j].payload.message_id,
{
    let base = s.history@.len() - s.outbound@.len();
    assert(s.history@[base + i] < s.history@[base + j]);
}

} // verus!
