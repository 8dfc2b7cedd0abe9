//! The echo node: it answers every `echo` with an `echo_ok` of the same text.

use vstd::prelude::*;
use crate::message::{content_of, into_reply, reply_to, Envelope, Message};
use crate::node::{Handled, Node};

verus! {

/// The messages of the echo service.
#[derive(Debug, Clone)]
pub enum EchoPayload {
    Echo { echo: String },
    EchoOk { echo: String },
}

/// The mathematical content of an [`EchoPayload`].
pub enum EchoContent {
    Echo(Seq<char>),
    EchoOk(Seq<char>),
}

impl View for EchoPayload {
    type V = EchoContent;

    open spec fn view(&self) -> EchoContent {
        match self {
            EchoPayload::Echo { echo } => EchoContent::Echo(echo@),
            EchoPayload::EchoOk { echo } => EchoContent::EchoOk(echo@),
        }
    }
}

impl DeepView for EchoPayload {
    type V = EchoContent;

    open spec fn deep_view(&self) -> EchoContent {
        self@
    }
}

/// The echo node. Its `id` is a label that the handler does not read.
#[derive(Clone, Copy)]
pub struct EchoNode {
    pub id: usize,
}

/// What the echo service owes for `request`: an `echo_ok` with the request's
/// text for an `echo`, and nothing for an `echo_ok`.
pub open spec fn echo_answer(request: Envelope<EchoContent>) -> Option<Envelope<EchoContent>> {
    match request.payload {
        EchoContent::Echo(text) => Some(reply_to(request, EchoContent::EchoOk(text))),
        EchoContent::EchoOk(_) => None,
    }
}

impl Node<EchoPayload> for EchoNode {
    /// The echo node allows one outcome: success, with the reply that the
    /// service owes for the message.
    open spec fn answers(
        self,
        message: Message<EchoPayload>,
        outcome: Handled<EchoPayload>,
    ) -> bool {
        &&& outcome is Ok
        &&& content_of(outcome->Ok_0) == echo_answer(message.deep_view())
    }

    /// Answers an `echo` with an `echo_ok` of the same text and absorbs an
    /// `echo_ok`. It never fails.
    fn handle(self, message: &Message<EchoPayload>) -> (outcome: Handled<EchoPayload>)
        ensures
            outcome is Ok,
            content_of(outcome->Ok_0) == echo_answer(message.deep_view()),
            message.body.payload is EchoOk ==> outcome->Ok_0 is None,
    {
        match &message.body.payload {
            EchoPayload::Echo { echo } => {
                let reply = into_reply(message, EchoPayload::EchoOk { echo: echo.clone() });
                Ok(Some(reply))
            },
            EchoPayload::EchoOk { .. } => Ok(None),
        }
    }
}

/// An `echo_ok` is absorbed: the only outcome that the echo node allows for
/// it is success without a reply.
pub proof fn lemma_echo_ok_is_absorbed(
    node: EchoNode,
    message: Message<EchoPayload>,
    outcome: Handled<EchoPayload>,
)
    requires
        message.body.payload is EchoOk,
        node.answers(message, outcome),
    ensures
        outcome == Handled::<EchoPayload>::Ok(None),
{
}

/// An `echo` is answered: every outcome that the echo node allows for it is a
/// reply that goes back to the sender, is linked to the request and carries
/// the request's text in an `echo_ok`.
pub proof fn lemma_echo_is_answered(
    node: EchoNode,
    message: Message<EchoPayload>,
    outcome: Handled<EchoPayload>,
)
    requires
        message.body.payload is Echo,
        node.answers(message, outcome),
    ensures
        outcome matches Ok(Some(reply)) && {
            &&& reply@.source == message@.destination
            &&& reply@.destination == message@.source
            &&& reply@.message_id == message@.message_id
            &&& reply@.in_reply_to == message@.message_id
            &&& reply.body.payload@ == EchoContent::EchoOk(message.body.payload->Echo_echo@)
        },
{
}

} // verus!
