//! The interface that a concrete node implements.

use vstd::prelude::*;
use crate::message::Message;

verus! {

/// Why a handler gave up on a message.
#[derive(Debug, Clone)]
pub struct HandlerError {
    pub reason: String,
}

impl View for HandlerError {
    type V = Seq<char>;

    open spec fn view(&self) -> Seq<char> {
        self.reason@
    }
}

/// What a handler hands back: a reply, nothing, or a failure.
pub type Handled<P> = Result<Option<Message<P>>, HandlerError>;

/// A node: given a message, it produces at most one reply.
pub trait Node<P>: Sized {
    /// The outcomes that this node allows for `message`. An implementation
    /// says here what its `handle` returns; the runtime's contracts are stated
    /// in terms of it. A node that says nothing allows every outcome.
    open spec fn answers(self, message: Message<P>, outcome: Handled<P>) -> bool {
        true
    }

    /// Handles one message.
    fn handle(self, message: &Message<P>) -> (outcome: Handled<P>)
        ensures
            self.answers(*message, outcome),
    ;
}

} // verus!
