//! The echo service: answers each `Echo` request with its own payload. A toy
//! behaviour kept alongside the broadcast service; it shows the sending
//! capability working with a second message vocabulary.

use vstd::prelude::*;

use crate::message::InitMessage;
use crate::sender::{MessageSender, NodeInformation};

verus! {

/// The kinds the echo service receives.
pub enum InEchoMessage {
    Init(InitMessage),
    Echo(EchoPayload),
}

/// The kinds the echo service sends: the `*Ok` answers to the two requests.
pub enum OutEchoMessage {
    Init,
    Echo(EchoPayload),
}

/// The body of an `Echo` request, returned verbatim in the reply.
pub struct EchoPayload {
    pub echo: String,
}

/// The echo service itself; it keeps no state of its own.
pub struct EchoNode;

impl EchoNode {
    /// Handles one typed payload and replies to it: `Init` registers the
    /// assigned identity, `Echo` is answered with the identical payload.
    pub fn handle_message(
        &mut self,
        message: InEchoMessage,
        sender: &mut MessageSender<OutEchoMessage>,
    )
        requires
            old(sender).wf(),
            old(sender).sender_information is Some,
            old(sender).message_id < u32::MAX,
            message is Echo ==> old(sender).node_information is Some,
        ensures
            final(sender).wf(),
            final(sender).message_id == old(sender).message_id + 1,
            final(sender).sender_information is None,
            final(sender).outbound@.len() == old(sender).outbound@.len() + 1,
            final(sender).outbound@.drop_last() == old(sender).outbound@,
            (message matches InEchoMessage::Init(init) ==> (final(sender).node_information
                matches Some(ni) && ni.id == init.node_id && ni.all_ids == init.node_ids)),
            (message is Echo ==> final(sender).node_information == old(sender).node_information),
            ({
                let m = final(sender).outbound@.last();
                &&& m.source@ == final(sender).spec_self_id()
                &&& m.destination@ == old(sender).sender_information->0.source@
                &&& m.payload.message_id == Some((old(sender).message_id + 1) as u32)
                &&& m.payload.in_reply_to == old(sender).sender_information->0.message_id
                &&& (message is Init ==> m.payload.message_type is Init)
                &&& (message matches InEchoMessage::Echo(p) ==> (m.payload.message_type
                    matches OutEchoMessage::Echo(q) && q.echo == p.echo))
            }),
    {
        match message {
            InEchoMessage::Init(init) => {
                sender.register_node_information(NodeInformation::from(init));
                sender.reply(OutEchoMessage::Init);
            },
            InEchoMessage::Echo(payload) => {
                sender.reply(OutEchoMessage::Echo(EchoPayload { echo: payload.echo }));
            },
        }
    }
}

} // verus!
