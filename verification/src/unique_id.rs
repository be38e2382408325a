//! The unique-id generation service: answers each `Generate` request with a
//! fresh random identifier. The identifier comes from an outside generator;
//! nothing can be promised of a random value beyond its shape.

use vstd::prelude::*;

use crate::message::InitMessage;
use crate::sender::{MessageSender, NodeInformation};

verus! {

/// The kinds the unique-id service receives.
pub enum InUniqueIdGenerationMessage {
    Init(InitMessage),
    Generate,
}

/// The kinds the unique-id service sends.
pub enum OutUniqueIdGenerationMessage {
    Init,
    Generate(GenerateOkPayload),
}

/// The body of a `GenerateOk` reply: one freshly generated identifier.
pub struct GenerateOkPayload {
    pub id: String,
}

/// The unique-id service itself; it keeps no state of its own.
pub struct UniqueIdGenerationNode;

/// Relies on `uuid::Uuid::new_v4` and its `Display` form: a fresh random
/// version-4 identifier, rendered hyphenated — always 36 ASCII characters.
/// The value is random, so nothing but its shape is stated.
#[verifier::external_body]
fn generate_unique_id() -> (r: String)
    ensures
        r@.len() == 36,
{
    uuid::Uuid::new_v4().to_string()
}

impl UniqueIdGenerationNode {
    /// Handles one typed payload and replies to it: `Init` registers the
    /// assigned identity, `Generate` is answered with a fresh identifier.
    pub fn handle_message(
        &mut self,
        message: InUniqueIdGenerationMessage,
        sender: &mut MessageSender<OutUniqueIdGenerationMessage>,
    )
        requires
            old(sender).wf(),
            old(sender).sender_information is Some,
            old(sender).message_id < u32::MAX,
            message is Generate ==> old(sender).node_information is Some,
        ensures
            final(sender).wf(),
            final(sender).message_id == old(sender).message_id + 1,
            final(sender).sender_information is None,
            final(sender).outbound@.len() == old(sender).outbound@.len() + 1,
            final(sender).outbound@.drop_last() == old(sender).outbound@,
            (message matches InUniqueIdGenerationMessage::Init(init) ==> (final(sender).node_information matches Some(ni) && ni.id == init.node_id && ni.all_ids
                == init.node_ids)),
            (message is Generate ==> final(sender).node_information == old(sender).node_information),
            ({
                let m = final(sender).outbound@.last();
                &&& m.source@ == final(sender).spec_self_id()
                &&& m.destination@ == old(sender).sender_information->0.source@
                &&& m.payload.message_id == Some((old(sender).message_id + 1) as u32)
                &&& m.payload.in_reply_to == old(sender).sender_information->0.message_id
                &&& (message is Init ==> m.payload.message_type is Init)
                &&& (message is Generate ==> (m.payload.message_type
                    matches OutUniqueIdGenerationMessage::Generate(p) && p.id@.len() == 36))
            }),
    {
        match message {
            InUniqueIdGenerationMessage::Init(init) => {
                sender.register_node_information(NodeInformation::from(init));
                sender.reply(OutUniqueIdGenerationMessage::Init);
            },
            InUniqueIdGenerationMessage::Generate => {
                let id = generate_unique_id();
                sender.reply(OutUniqueIdGenerationMessage::Generate(GenerateOkPayload { id }));
            },
        }
    }
}

} // verus!
