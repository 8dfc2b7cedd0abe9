//! The message envelope and the rule that builds a reply to one.

use vstd::prelude::*;

verus! {

/// The bookkeeping fields and the payload of a message.
#[derive(Debug, Clone)]
pub struct MessageBody<T> {
    pub msg_id: Option<usize>,
    pub in_reply_to: Option<usize>,
    pub payload: T,
}

/// A message as it travels between two nodes.
#[derive(Debug, Clone)]
pub struct Message<T> {
    pub src: String,
    pub dest: String,
    pub body: MessageBody<T>,
}

/// The mathematical content of a [`Message`]: who sent it, who receives it,
/// its sequence number, the number of the message it answers, and its payload.
pub struct Envelope<T> {
    pub source: Seq<char>,
    pub destination: Seq<char>,
    pub message_id: Option<nat>,
    pub in_reply_to: Option<nat>,
    pub payload: T,
}

/// An optional machine integer as an optional natural number.
pub open spec fn id_of(id: Option<usize>) -> Option<nat> {
    match id {
        Some(n) => Some(n as nat),
        None => None,
    }
}

impl<T> View for Message<T> {
    type V = Envelope<T>;

    open spec fn view(&self) -> Envelope<T> {
        Envelope {
            source: self.src@,
            destination: self.dest@,
            message_id: id_of(self.body.msg_id),
            in_reply_to: id_of(self.body.in_reply_to),
            payload: self.body.payload,
        }
    }
}

impl<T: DeepView> DeepView for Message<T> {
    type V = Envelope<T::V>;

    open spec fn deep_view(&self) -> Envelope<T::V> {
        Envelope {
            source: self.src@,
            destination: self.dest@,
            message_id: id_of(self.body.msg_id),
            in_reply_to: id_of(self.body.in_reply_to),
            payload: self.body.payload.deep_view(),
        }
    }
}

/// The content of an optional message.
pub open spec fn content_of<P: DeepView>(reply: Option<Message<P>>) -> Option<Envelope<P::V>> {
    match reply {
        Some(m) => Some(m.deep_view()),
        None => None,
    }
}

/// The reply to `request` that carries `payload`: the endpoints change places,
/// the request's sequence number is kept as the reply's own, and the reply
/// names that same number as the one it answers.
pub open spec fn reply_to<T>(request: Envelope<T>, payload: T) -> Envelope<T> {
    Envelope {
        source: request.destination,
        destination: request.source,
        message_id: request.message_id,
        in_reply_to: request.message_id,
        payload,
    }
}

/// Builds the reply to `incoming_msg` that carries `payload`.
pub fn into_reply<T>(incoming_msg: &Message<T>, payload: T) -> (reply: Message<T>)
    ensures
        reply@ == reply_to(incoming_msg@, payload),
        reply@.source == incoming_msg@.destination,
        reply@.destination == incoming_msg@.source,
        reply@.message_id == incoming_msg@.message_id,
        reply@.in_reply_to == incoming_msg@.message_id,
        reply@.payload == payload,
{
    Message {
        src: incoming_msg.dest.clone(),
        dest: incoming_msg.src.clone(),
        body: MessageBody {
            msg_id: incoming_msg.body.msg_id,
            in_reply_to: incoming_msg.body.msg_id,
            payload,
        },
    }
}

/// A reply goes back the way the request came: its source is the request's
/// destination and its destination is the request's source.
pub proof fn lemma_reply_swaps_endpoints<T>(request: Envelope<T>, payload: T)
    ensures
        reply_to(request, payload).source == request.destination,
        reply_to(request, payload).destination == request.source,
{
}

/// A reply to a numbered request names that number as the one it answers.
pub proof fn lemma_reply_links_request<T>(request: Envelope<T>, payload: T, n: nat)
    requires
        request.message_id == Some(n),
    ensures
        reply_to(request, payload).in_reply_to == Some(n),
{
}

} // verus!
