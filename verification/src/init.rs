//! The initialisation handshake: the one exchange that gives a process its
//! identity before any other message is handled.

use vstd::prelude::*;
use crate::message::{Envelope, Message, MessageBody};

verus! {

/// The two kinds of handshake message.
#[derive(Debug, Clone, Copy, PartialEq, Eq, Structural)]
pub enum InitType {
    Init,
    InitOk,
}

/// The harness's first message: the node's own name and the names of all nodes.
#[derive(Debug, Clone)]
pub struct Init {
    pub typ: InitType,
    pub node_id: String,
    pub node_ids: Vec<String>,
}

/// The mathematical content of an [`Init`].
pub struct InitContent {
    pub typ: InitType,
    pub node_id: Seq<char>,
    pub node_ids: Seq<Seq<char>>,
}

impl View for Init {
    type V = InitContent;

    open spec fn view(&self) -> InitContent {
        InitContent {
            typ: self.typ,
            node_id: self.node_id@,
            node_ids: self.node_ids.deep_view(),
        }
    }
}

impl DeepView for Init {
    type V = InitContent;

    open spec fn deep_view(&self) -> InitContent {
        self@
    }
}

/// The node's answer to the handshake.
#[derive(Debug, Clone, Copy)]
pub struct InitOk {
    pub typ: InitType,
}

/// The acknowledgement of the handshake `request`: it goes back to the sender,
/// carries the sequence number 0, since the node has sent nothing before it,
/// and names the request's number as the one it answers.
pub open spec fn init_reply(request: Envelope<InitContent>) -> Envelope<InitOk> {
    Envelope {
        source: request.destination,
        destination: request.source,
        message_id: Some(0nat),
        in_reply_to: request.message_id,
        payload: InitOk { typ: InitType::InitOk },
    }
}

impl InitOk {
    /// The payload of every acknowledgement.
    pub fn new() -> (ok: InitOk)
        ensures
            ok == (InitOk { typ: InitType::InitOk }),
    {
        InitOk { typ: InitType::InitOk }
    }

    /// Builds the acknowledgement of the handshake message `init_msg`.
    pub fn from(init_msg: Message<Init>) -> (reply: Message<InitOk>)
        ensures
            reply@ == init_reply(init_msg.deep_view()),
    {
        Message {
            src: init_msg.dest,
            dest: init_msg.src,
            body: MessageBody {
                msg_id: Some(0),
                in_reply_to: init_msg.body.msg_id,
                payload: InitOk::new(),
            },
        }
    }
}

/// The acknowledgement of a numbered handshake message names that number as
/// the one it answers and carries the number 0 itself.
pub proof fn lemma_init_reply_links_request(request: Envelope<InitContent>, n: nat)
    requires
        request.message_id == Some(n),
    ensures
        init_reply(request).in_reply_to == Some(n),
        init_reply(request).message_id == Some(0nat),
        init_reply(request).source == request.destination,
        init_reply(request).destination == request.source,
{
}

} // verus!
