//! The unique-id node: it answers every `generate` with a `generate_ok` that
//! carries a fresh random identifier.

use vstd::prelude::*;
use uuid::Uuid;
use crate::message::{into_reply, reply_to, Message};
use crate::node::{Handled, Node};

verus! {

/// A 128-bit identifier of the `uuid` crate. Nothing of its contents is known
/// here: the library only carries it from where it is made into a reply.
#[verifier::external_type_specification]
#[verifier::external_body]
pub struct ExUuid(Uuid);

/// `Uuid::new_v4` draws a random identifier from the operating system's
/// generator. Nothing is claimed of the value: two calls may return anything.
/// It panics if the operating system cannot supply random bytes.
pub assume_specification[ Uuid::new_v4 ]() -> (id: Uuid);

/// The messages of the unique-id service.
#[derive(Debug)]
pub enum UniqueIdPayload {
    Generate,
    GenerateOk { id: Uuid },
}

impl Clone for UniqueIdPayload {
    fn clone(&self) -> (copy: Self)
        ensures
            copy == *self,
    {
        match self {
            UniqueIdPayload::Generate => UniqueIdPayload::Generate,
            UniqueIdPayload::GenerateOk { id } => UniqueIdPayload::GenerateOk { id: *id },
        }
    }
}

/// The unique-id node. Its `id` is a label that the handler does not read.
#[derive(Clone, Copy)]
pub struct UniqueIdNode {
    pub id: usize,
}

/// Builds the `generate_ok` that answers `request` with the identifier `id`.
pub fn generate_ok(request: &Message<UniqueIdPayload>, id: Uuid) -> (reply: Message<
    UniqueIdPayload,
>)
    ensures
        reply@ == reply_to(request@, UniqueIdPayload::GenerateOk { id }),
{
    into_reply(request, UniqueIdPayload::GenerateOk { id })
}

impl Node<UniqueIdPayload> for UniqueIdNode {
    /// A `generate` gets exactly one reply, a `generate_ok` addressed back to
    /// the sender and linked to the request; which identifier it carries is
    /// left open. A `generate_ok` gets nothing.
    open spec fn answers(
        self,
        message: Message<UniqueIdPayload>,
        outcome: Handled<UniqueIdPayload>,
    ) -> bool {
        match message.body.payload {
            UniqueIdPayload::Generate => {
                &&& outcome matches Ok(Some(reply))
                &&& reply.body.payload is GenerateOk
                &&& reply@ == reply_to(message@, reply.body.payload)
            },
            UniqueIdPayload::GenerateOk { .. } => outcome == Handled::<UniqueIdPayload>::Ok(None),
        }
    }

    /// Answers a `generate` with a `generate_ok` that carries a fresh random
    /// identifier and absorbs a `generate_ok`. It never fails.
    fn handle(self, message: &Message<UniqueIdPayload>) -> (outcome: Handled<UniqueIdPayload>)
        ensures
            message.body.payload is Generate ==> {
                &&& outcome matches Ok(Some(reply))
                &&& reply.body.payload is GenerateOk
                &&& reply@ == reply_to(message@, reply.body.payload)
            },
            message.body.payload is GenerateOk ==> outcome == Handled::<UniqueIdPayload>::Ok(
                None,
            ),
    {
        match &message.body.payload {
            UniqueIdPayload::Generate => Ok(Some(generate_ok(message, Uuid::new_v4()))),
            UniqueIdPayload::GenerateOk { .. } => Ok(None),
        }
    }
}

/// A `generate_ok` is absorbed: the only outcome that the unique-id node
/// allows for it is success without a reply.
pub proof fn lemma_generate_ok_is_absorbed(
    node: UniqueIdNode,
    message: Message<UniqueIdPayload>,
    outcome: Handled<UniqueIdPayload>,
)
    requires
        message.body.payload is GenerateOk,
        node.answers(message, outcome),
    ensures
        outcome == Handled::<UniqueIdPayload>::Ok(None),
{
}

} // verus!
