//! A small runtime for message-passing nodes that talk to a test harness in
//! line-delimited JSON: the envelope model, the rule that builds a reply, the
//! initialisation handshake, the handler interface and the decisions of the
//! read-dispatch-write loop, each with a machine-checked contract.

pub mod echo;
pub mod init;
pub mod message;
pub mod node;
pub mod runtime;
pub mod unique_ids;

pub use message::{into_reply, Message, MessageBody};
pub use node::{Handled, HandlerError, Node};
pub use runtime::{Action, Error, Event, Identity, Stage, State};
