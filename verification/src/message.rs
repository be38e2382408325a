//! The wire data model: an envelope (source, destination, payload), a payload
//! (kind, optional message id, optional reply-correlation id), and the closed
//! union of message kinds of the broadcast service.

use vstd::prelude::*;

verus! {

/// Error code sent when an envelope's destination is not this node.
pub const WRONG_NODE: u16 = 1001;

/// Error code sent when a request other than `Init` arrives before `Init`.
pub const UNINITIALISED: u16 = 1002;

/// One transmitted unit: where it came from, where it goes, and its body.
pub struct Message<M> {
    /// The node this message came from.
    pub source: String,
    /// The node this message was sent to.
    pub destination: String,
    /// The payload of the message.
    pub payload: Payload<M>,
}

/// The payload of a [`Message`].
pub struct Payload<M> {
    /// The typed kind of this message.
    pub message_type: M,
    /// Unique message identifier; unique only within the sending node's own
    /// id space, not globally.
    pub message_id: Option<u32>,
    /// The message id of the [`Message`] this one is replying to; absent means
    /// "not a reply".
    pub in_reply_to: Option<u32>,
}

/// The body of an `Init` message: the identity assigned to the receiving node
/// and the ids of all nodes in the cluster.
pub struct InitMessage {
    /// The id of the node which is receiving this message.
    pub node_id: String,
    /// The ids of all nodes in the cluster.
    pub node_ids: Vec<String>,
}

/// The closed union of message kinds the broadcast service sends or receives.
/// Every request kind has exactly one `*Ok` reply kind, except `Gossip`,
/// which is fire-and-forget.
pub enum MessageKind {
    Init(InitMessage),
    InitOk,
    Error(ErrorPayload),
    Broadcast(BroadcastPayload),
    BroadcastOk,
    Read,
    ReadOk(ReadOkPayload),
    Topology(TopologyPayload),
    TopologyOk,
    Gossip(GossipPayload),
}

/// The body of an `Error` message.
pub struct ErrorPayload {
    pub code: u16,
    pub text: Option<String>,
}

/// The body of a `Broadcast` request: one value to disseminate.
pub struct BroadcastPayload {
    pub message: i32,
}

/// The body of a `ReadOk` reply: a snapshot of the value store.
pub struct ReadOkPayload {
    pub messages: Vec<i32>,
}

/// The body of a `Topology` request: for each node, its neighbour list.
pub struct TopologyPayload {
    pub topology: Vec<(String, Vec<String>)>,
}

/// The body of a `Gossip` message: the sender's value store and the set of
/// nodes already covered by this gossip wave.
pub struct GossipPayload {
    pub values: Vec<i32>,
    pub informed: Vec<String>,
}

impl MessageKind {
    /// A kind this node answers as a request; the remaining kinds only ever
    /// travel outward from a node in this role.
    pub open spec fn is_request(self) -> bool {
        ||| self is Init
        ||| self is Broadcast
        ||| self is Read
        ||| self is Topology
        ||| self is Gossip
    }
}

/// Holds when `m` is the envelope the sending capability builds for counter
/// value `id`: from `source`, to `destination`, carrying exactly `kind`.
pub open spec fn sent_message<M>(
    m: Message<M>,
    source: Seq<char>,
    destination: Seq<char>,
    kind: M,
    id: u32,
    in_reply_to: Option<u32>,
) -> bool {
    &&& m.source@ == source
    &&& m.destination@ == destination
    &&& m.payload.message_type == kind
    &&& m.payload.message_id == Some(id)
    &&& m.payload.in_reply_to == in_reply_to
}

/// Holds when `m` is a synthesized guard error: source is the empty sentinel
/// id (the sender is not a legitimate owner of a message-id space yet, or not
/// the addressee), code `code`, correlated to the offending request.
pub open spec fn error_message(
    m: Message<MessageKind>,
    destination: Seq<char>,
    code: u16,
    id: u32,
    in_reply_to: Option<u32>,
) -> bool {
    &&& m.source@ == Seq::<char>::empty()
    &&& m.destination@ == destination
    &&& (m.payload.message_type matches MessageKind::Error(e) && e.code == code && e.text is None)
    &&& m.payload.message_id == Some(id)
    &&& m.payload.in_reply_to == in_reply_to
}

} // verus!
