//! The decisions of the read-dispatch-write loop, as a state machine: from the
//! state and what has just happened to the next state and what to do.
//!
//! The caller owns the streams. It reads a line, decodes it (as a handshake
//! message while the state is `AwaitingInit`, as a message of the node's own
//! kind afterwards), hands the outcome to [`State::step`] and carries out the
//! action that comes back, one event at a time.

use vstd::prelude::*;
use vstd::string::StringExecFns;
use crate::init::{init_reply, Init, InitContent, InitOk, InitType};
use crate::message::{Envelope, Message};
use crate::node::{Handled, Node};

verus! {

/// The part of the loop in which something went wrong.
#[derive(Debug, Clone, Copy, PartialEq, Eq, Structural)]
pub enum Stage {
    ReadInit,
    DecodeInit,
    ReadMessage,
    DecodeMessage,
    Handle,
    EncodeReply,
    WriteOutput,
}

impl Stage {
    /// The words that introduce a failure of this stage in a diagnostic.
    pub open spec fn context_text(self) -> Seq<char> {
        match self {
            Stage::ReadInit => "failed to read init message from stdin"@,
            Stage::DecodeInit => "init message could not be deserialized"@,
            Stage::ReadMessage => "Maelstrom input from STDIN could not be read"@,
            Stage::DecodeMessage => "Maelstrom input from STDIN could not be deserialized"@,
            Stage::Handle => "Node handle function failed"@,
            Stage::EncodeReply => "serialize response"@,
            Stage::WriteOutput => "write trailing newline"@,
        }
    }

    /// The words that introduce a failure of this stage in a diagnostic.
    pub fn context(&self) -> (text: &'static str)
        ensures
            text@ == self.context_text(),
    {
        match self {
            Stage::ReadInit => "failed to read init message from stdin",
            Stage::DecodeInit => "init message could not be deserialized",
            Stage::ReadMessage => "Maelstrom input from STDIN could not be read",
            Stage::DecodeMessage => "Maelstrom input from STDIN could not be deserialized",
            Stage::Handle => "Node handle function failed",
            Stage::EncodeReply => "serialize response",
            Stage::WriteOutput => "write trailing newline",
        }
    }
}

/// A fatal failure: the stage that failed and what is known of the cause.
#[derive(Debug, Clone)]
pub struct Error {
    pub stage: Stage,
    pub detail: String,
}

/// The mathematical content of an [`Error`].
pub struct ErrorContent {
    pub stage: Stage,
    pub detail: Seq<char>,
}

impl View for Error {
    type V = ErrorContent;

    open spec fn view(&self) -> ErrorContent {
        ErrorContent { stage: self.stage, detail: self.detail@ }
    }
}

/// What the handshake tells a process about itself: its own name and the
/// names of all nodes of the cluster.
#[derive(Debug, Clone)]
pub struct Identity {
    pub node_id: String,
    pub node_ids: Vec<String>,
}

/// The mathematical content of an [`Identity`].
pub struct IdentityContent {
    pub node_id: Seq<char>,
    pub node_ids: Seq<Seq<char>>,
}

impl View for Identity {
    type V = IdentityContent;

    open spec fn view(&self) -> IdentityContent {
        IdentityContent { node_id: self.node_id@, node_ids: self.node_ids.deep_view() }
    }
}

/// The identity that a handshake message assigns.
pub open spec fn identity_of(init: InitContent) -> IdentityContent {
    IdentityContent { node_id: init.node_id, node_ids: init.node_ids }
}

/// Where the loop stands.
#[derive(Debug, Clone)]
pub enum State {
    /// Nothing has been read yet; the next line must be the handshake.
    AwaitingInit,
    /// The handshake is done and the node answers requests.
    Running(Identity),
    /// The input has ended; the process exits cleanly.
    Stopped,
    /// A failure has ended the loop; the process exits with this error.
    Failed(Error),
}

/// The mathematical content of a [`State`].
pub enum StateContent {
    AwaitingInit,
    Running(IdentityContent),
    Stopped,
    Failed(ErrorContent),
}

impl View for State {
    type V = StateContent;

    open spec fn view(&self) -> StateContent {
        match self {
            State::AwaitingInit => StateContent::AwaitingInit,
            State::Running(identity) => StateContent::Running(identity@),
            State::Stopped => StateContent::Stopped,
            State::Failed(error) => StateContent::Failed(error@),
        }
    }
}

/// What has just happened at the streams.
#[derive(Debug, Clone)]
pub enum Event<P> {
    /// A line was read and decoded as a handshake message.
    Init(Message<Init>),
    /// A line was read and decoded as a message of the node's own kind.
    Request(Message<P>),
    /// The input has ended.
    EndOfInput,
    /// The input could not be read.
    ReadFailed(String),
    /// A line was read but could not be decoded.
    DecodeFailed(String),
    /// The message of the last action could not be encoded.
    EncodeFailed(String),
    /// The message of the last action could not be written.
    WriteFailed(String),
}

/// The mathematical content of an [`Event`].
pub enum EventContent<P> {
    Init(Envelope<InitContent>),
    Request(Envelope<P>),
    EndOfInput,
    ReadFailed(Seq<char>),
    DecodeFailed(Seq<char>),
    EncodeFailed(Seq<char>),
    WriteFailed(Seq<char>),
}

impl<P> View for Event<P> {
    type V = EventContent<P>;

    open spec fn view(&self) -> EventContent<P> {
        match self {
            Event::Init(message) => EventContent::Init(message.deep_view()),
            Event::Request(message) => EventContent::Request(message@),
            Event::EndOfInput => EventContent::EndOfInput,
            Event::ReadFailed(detail) => EventContent::ReadFailed(detail@),
            Event::DecodeFailed(detail) => EventContent::DecodeFailed(detail@),
            Event::EncodeFailed(detail) => EventContent::EncodeFailed(detail@),
            Event::WriteFailed(detail) => EventContent::WriteFailed(detail@),
        }
    }
}

/// What the caller is to do next.
#[derive(Debug, Clone)]
pub enum Action<P> {
    /// Write the acknowledgement of the handshake, then read on.
    Greet(Message<InitOk>),
    /// Write this reply, then read on.
    Reply(Message<P>),
    /// Write nothing and read on.
    Continue,
    /// Leave the loop without an error.
    Exit,
    /// Leave the loop with this error.
    Abort(Error),
}

/// The mathematical content of an [`Action`].
pub enum ActionContent<P> {
    Greet(Envelope<InitOk>),
    Reply(Envelope<P>),
    Continue,
    Exit,
    Abort(ErrorContent),
}

impl<P> View for Action<P> {
    type V = ActionContent<P>;

    open spec fn view(&self) -> ActionContent<P> {
        match self {
            Action::Greet(message) => ActionContent::Greet(message@),
            Action::Reply(message) => ActionContent::Reply(message@),
            Action::Continue => ActionContent::Continue,
            Action::Exit => ActionContent::Exit,
            Action::Abort(error) => ActionContent::Abort(error@),
        }
    }
}

/// The mathematical content of what a handler hands back.
pub type HandledContent<P> = Result<Option<Envelope<P>>, Seq<char>>;

/// The content of a handler's outcome.
pub open spec fn handled_content<P>(outcome: Handled<P>) -> HandledContent<P> {
    match outcome {
        Ok(Some(reply)) => Ok(Some(reply@)),
        Ok(None) => Ok(None),
        Err(error) => Err(error@),
    }
}

/// The cause given when the input ends before the handshake.
pub open spec fn no_init_text() -> Seq<char> {
    "no init message received"@
}

/// The cause given when the first message is not a handshake message.
pub open spec fn not_init_text() -> Seq<char> {
    "the first message is not an init message"@
}

/// The cause given when a handshake message arrives after the handshake.
pub open spec fn late_init_text() -> Seq<char> {
    "an init message arrived after the handshake"@
}

/// The loop ends with a failure of `stage`: the state records it and the
/// action reports it.
pub open spec fn failed<P>(stage: Stage, detail: Seq<char>) -> (StateContent, ActionContent<P>) {
    let error = ErrorContent { stage, detail };
    (StateContent::Failed(error), ActionContent::Abort(error))
}

/// What a running node does with its handler's outcome: a reply is written,
/// no reply means that nothing is written, and a failure ends the loop.
pub open spec fn settled<P>(identity: IdentityContent, handled: HandledContent<P>) -> (
    StateContent,
    ActionContent<P>,
) {
    match handled {
        Ok(Some(reply)) => (StateContent::Running(identity), ActionContent::Reply(reply)),
        Ok(None) => (StateContent::Running(identity), ActionContent::Continue),
        Err(reason) => failed(Stage::Handle, reason),
    }
}

/// Whether `event` in `state` is a request that goes to the node's handler.
pub open spec fn dispatches<P>(state: StateContent, event: EventContent<P>) -> bool {
    state is Running && event is Request
}

/// The transition function of the loop. `handled` is what the handler made of
/// the request; it is read only where `dispatches(state, event)` holds.
pub open spec fn transition<P>(
    state: StateContent,
    event: EventContent<P>,
    handled: HandledContent<P>,
) -> (StateContent, ActionContent<P>) {
    match state {
        StateContent::Stopped => (state, ActionContent::Exit),
        StateContent::Failed(error) => (state, ActionContent::Abort(error)),
        StateContent::AwaitingInit => match event {
            EventContent::Init(message) => if message.payload.typ == InitType::Init {
                (
                    StateContent::Running(identity_of(message.payload)),
                    ActionContent::Greet(init_reply(message)),
                )
            } else {
                failed(Stage::DecodeInit, not_init_text())
            },
            EventContent::Request(_) => failed(Stage::DecodeInit, not_init_text()),
            EventContent::EndOfInput => failed(Stage::ReadInit, no_init_text()),
            EventContent::ReadFailed(detail) => failed(Stage::ReadInit, detail),
            EventContent::DecodeFailed(detail) => failed(Stage::DecodeInit, detail),
            EventContent::EncodeFailed(detail) => failed(Stage::EncodeReply, detail),
            EventContent::WriteFailed(detail) => failed(Stage::WriteOutput, detail),
        },
        StateContent::Running(identity) => match event {
            EventContent::Init(_) => failed(Stage::DecodeMessage, late_init_text()),
            EventContent::Request(_) => settled(identity, handled),
            EventContent::EndOfInput => (StateContent::Stopped, ActionContent::Exit),
            EventContent::ReadFailed(detail) => failed(Stage::ReadMessage, detail),
            EventContent::DecodeFailed(detail) => failed(Stage::DecodeMessage, detail),
            EventContent::EncodeFailed(detail) => failed(Stage::EncodeReply, detail),
            EventContent::WriteFailed(detail) => failed(Stage::WriteOutput, detail),
        },
    }
}

/// Whether `next` is what the loop owes for `event` in `state`, given that the
/// handler of `node` made `outcome` of the request, where there was one for it.
pub open spec fn steps_to<P, N: Node<P>>(
    node: N,
    state: State,
    event: Event<P>,
    outcome: Handled<P>,
    next: (StateContent, ActionContent<P>),
) -> bool {
    &&& dispatches(state@, event@) ==> node.answers(event->Request_0, outcome)
    &&& next == transition(state@, event@, handled_content(outcome))
}

/// Ends the loop with a failure of `stage`.
fn fail<P>(stage: Stage, detail: String) -> (next: (State, Action<P>))
    ensures
        (next.0@, next.1@) == failed::<P>(stage, detail@),
{
    let copy = detail.clone();
    (State::Failed(Error { stage, detail }), Action::Abort(Error { stage, detail: copy }))
}

impl State {
    /// The state in which every loop starts.
    pub fn new() -> (state: State)
        ensures
            state@ == StateContent::AwaitingInit,
    {
        State::AwaitingInit
    }

    /// The identity that the handshake assigned, while the node runs.
    pub fn identity(&self) -> (identity: Option<&Identity>)
        ensures
            match *self {
                State::Running(assigned) => identity == Some(&assigned),
                _ => identity is None,
            },
    {
        match self {
            State::Running(assigned) => Some(assigned),
            _ => None,
        }
    }

    /// What a running node with this identity does with its handler's outcome.
    pub fn settle<P>(identity: Identity, outcome: Handled<P>) -> (next: (State, Action<P>))
        ensures
            (next.0@, next.1@) == settled(identity@, handled_content(outcome)),
    {
        match outcome {
            Ok(Some(reply)) => (State::Running(identity), Action::Reply(reply)),
            Ok(None) => (State::Running(identity), Action::Continue),
            Err(error) => fail(Stage::Handle, error.reason),
        }
    }

    /// Takes one event: returns the next state and what the caller is to do.
    /// A request that reaches a running node goes to `node`'s handler, and the
    /// result is the transition for one of the outcomes that the node allows.
    pub fn step<P, N: Node<P>>(self, node: N, event: Event<P>) -> (next: (State, Action<P>))
        ensures
            exists|outcome: Handled<P>| #[trigger]
                steps_to(node, self, event, outcome, (next.0@, next.1@)),
    {
        let ghost before = self;
        let ghost occurred = event;
        let ghost mut witness: Handled<P> = Ok(None);
        let next = match self {
            State::Stopped => (State::Stopped, Action::Exit),
            State::Failed(error) => fail(error.stage, error.detail),
            State::AwaitingInit => match event {
                Event::Init(message) => {
                    if message.body.payload.typ == InitType::Init {
                        let identity = Identity {
                            node_id: message.body.payload.node_id.clone(),
                            node_ids: message.body.payload.node_ids.clone(),
                        };
                        (State::Running(identity), Action::Greet(InitOk::from(message)))
                    } else {
                        fail(
                            Stage::DecodeInit,
                            String::from_str("the first message is not an init message"),
                        )
                    }
                },
                Event::Request(_) => fail(
                    Stage::DecodeInit,
                    String::from_str("the first message is not an init message"),
                ),
                Event::EndOfInput => fail(
                    Stage::ReadInit,
                    String::from_str("no init message received"),
                ),
                Event::ReadFailed(detail) => fail(Stage::ReadInit, detail),
                Event::DecodeFailed(detail) => fail(Stage::DecodeInit, detail),
                Event::EncodeFailed(detail) => fail(Stage::EncodeReply, detail),
                Event::WriteFailed(detail) => fail(Stage::WriteOutput, detail),
            },
            State::Running(identity) => match event {
                Event::Init(_) => fail(
                    Stage::DecodeMessage,
                    String::from_str("an init message arrived after the handshake"),
                ),
                Event::Request(message) => {
                    let outcome = node.handle(&message);
                    proof {
                        witness = outcome;
                    }
                    State::settle(identity, outcome)
                },
                Event::EndOfInput => (State::Stopped, Action::Exit),
                Event::ReadFailed(detail) => fail(Stage::ReadMessage, detail),
                Event::DecodeFailed(detail) => fail(Stage::DecodeMessage, detail),
                Event::EncodeFailed(detail) => fail(Stage::EncodeReply, detail),
                Event::WriteFailed(detail) => fail(Stage::WriteOutput, detail),
            },
        };
        assert(steps_to(node, before, occurred, witness, (next.0@, next.1@)));
        next
    }
}

/// One step of a run: an event, and what the handler made of it where the
/// event was a request that reached it.
pub type Occurrence<P> = (EventContent<P>, HandledContent<P>);

/// The state after the steps of `trace`, taken in order from `state`.
pub open spec fn run<P>(state: StateContent, trace: Seq<Occurrence<P>>) -> StateContent
    decreases trace.len(),
{
    if trace.len() == 0 {
        state
    } else {
        run(transition(state, trace[0].0, trace[0].1).0, trace.drop_first())
    }
}

/// The actions of the steps of `trace`, taken in order from `state`.
pub open spec fn actions<P>(state: StateContent, trace: Seq<Occurrence<P>>) -> Seq<
    ActionContent<P>,
>
    decreases trace.len(),
{
    if trace.len() == 0 {
        Seq::empty()
    } else {
        let first = transition(state, trace[0].0, trace[0].1);
        seq![first.1] + actions(first.0, trace.drop_first())
    }
}

/// Whether every step of `trace` is a request that the handler did not fail on.
pub open spec fn all_answered<P>(trace: Seq<Occurrence<P>>) -> bool {
    forall|i: int| 0 <= i < trace.len() ==> (#[trigger] trace[i]).0 is Request && trace[i].1 is Ok
}

/// What is written for a request that the handler did not fail on: its reply,
/// or nothing.
pub open spec fn answer_action<P>(step: Occurrence<P>) -> ActionContent<P> {
    match step.1 {
        Ok(Some(reply)) => ActionContent::Reply(reply),
        _ => ActionContent::Continue,
    }
}

/// Once the loop has ended it stays as it is, whatever comes: the state does
/// not change, nothing is written, and the action repeats how the loop ended.
pub proof fn lemma_halted_is_final<P>(
    state: StateContent,
    event: EventContent<P>,
    handled: HandledContent<P>,
)
    requires
        state is Stopped || state is Failed,
    ensures
        transition(state, event, handled).0 == state,
        state is Stopped ==> transition(state, event, handled).1 == ActionContent::<P>::Exit,
        state is Failed ==> transition(state, event, handled).1 == ActionContent::<P>::Abort(
            state->Failed_0,
        ),
{
}

/// After a loop has ended, no run changes its state and every action of the
/// run is the one that ends the loop: no further message is handled.
pub proof fn lemma_nothing_follows_the_end<P>(state: StateContent, trace: Seq<Occurrence<P>>)
    requires
        state is Stopped || state is Failed,
    ensures
        run(state, trace) == state,
        actions(state, trace).len() == trace.len(),
        forall|i: int|
            0 <= i < trace.len() ==> #[trigger] actions(state, trace)[i] == transition(
                state,
                trace[i].0,
                trace[i].1,
            ).1,
        forall|i: int|
            0 <= i < trace.len() ==> !(#[trigger] actions(state, trace)[i] is Reply) && !(actions(
                state,
                trace,
            )[i] is Greet),
    decreases trace.len(),
{
    if trace.len() > 0 {
        let rest = trace.drop_first();
        lemma_halted_is_final(state, trace[0].0, trace[0].1);
        lemma_nothing_follows_the_end(state, rest);
        assert forall|i: int| 0 <= i < trace.len() implies #[trigger] actions(state, trace)[i]
            == transition(state, trace[i].0, trace[i].1).1 by {
            if i > 0 {
                assert(actions(state, trace)[i] == actions(state, rest)[i - 1]);
                assert(rest[i - 1] == trace[i]);
            }
        }
    }
}

/// A line that cannot be decoded ends the loop with a failure, before the
/// handshake and after it.
pub proof fn lemma_undecodable_line_is_fatal<P>(
    state: StateContent,
    detail: Seq<char>,
    handled: HandledContent<P>,
)
    requires
        state is AwaitingInit || state is Running,
    ensures
        transition(state, EventContent::<P>::DecodeFailed(detail), handled) == failed::<P>(
            if state is AwaitingInit {
                Stage::DecodeInit
            } else {
                Stage::DecodeMessage
            },
            detail,
        ),
        transition(state, EventContent::<P>::DecodeFailed(detail), handled).0 is Failed,
        transition(state, EventContent::<P>::DecodeFailed(detail), handled).1 is Abort,
{
}

/// A request for which the handler has no reply leaves the node running and
/// writes nothing.
pub proof fn lemma_no_reply_writes_nothing<P>(identity: IdentityContent, request: Envelope<P>)
    ensures
        transition(
            StateContent::Running(identity),
            EventContent::Request(request),
            Ok(None),
        ) == (StateContent::Running(identity), ActionContent::<P>::Continue),
{
}

/// The handshake happens once: only a handshake message takes the loop from
/// `AwaitingInit` to `Running`, with the identity that the message assigns and
/// the acknowledgement as the action, and a running node keeps its identity
/// for as long as it runs.
pub proof fn lemma_identity_is_assigned_once<P>(
    state: StateContent,
    event: EventContent<P>,
    handled: HandledContent<P>,
)
    requires
        transition(state, event, handled).0 is Running,
    ensures
        state is AwaitingInit || state is Running,
        state is Running ==> transition(state, event, handled).0 == state,
        state is AwaitingInit ==> {
            &&& event matches EventContent::Init(message)
            &&& message.payload.typ == InitType::Init
            &&& transition(state, event, handled) == (
                StateContent::Running(identity_of(message.payload)),
                ActionContent::<P>::Greet(init_reply(message)),
            )
        },
{
}

/// While requests come in and the handler answers them, the node keeps
/// running with the identity it has, and what is written is, step by step
/// and in the order of the requests, the reply to each request that has one.
pub proof fn lemma_replies_follow_requests<P>(identity: IdentityContent, trace: Seq<Occurrence<P>>)
    requires
        all_answered(trace),
    ensures
        run(StateContent::Running(identity), trace) == StateContent::Running(identity),
        actions(StateContent::Running(identity), trace) == trace.map_values(
            |step: Occurrence<P>| answer_action(step),
        ),
    decreases trace.len(),
{
    let state = StateContent::Running(identity);
    let expected = trace.map_values(|step: Occurrence<P>| answer_action(step));
    if trace.len() > 0 {
        let rest = trace.drop_first();
        assert(trace[0].0 is Request && trace[0].1 is Ok);
        assert(all_answered(rest)) by {
            assert forall|i: int| 0 <= i < rest.len() implies (#[trigger] rest[i]).0 is Request
                && rest[i].1 is Ok by {
                assert(rest[i] == trace[i + 1]);
            }
        }
        lemma_replies_follow_requests(identity, rest);
        assert(transition(state, trace[0].0, trace[0].1) == (state, answer_action(trace[0])));
        assert(actions(state, trace) =~= expected) by {
            assert forall|i: int| 0 <= i < trace.len() implies actions(state, trace)[i]
                == expected[i] by {
                if i > 0 {
                    assert(rest[i - 1] == trace[i]);
                }
            }
        }
    } else {
        assert(actions(state, trace) =~= expected);
    }
}

/// The end of the input after any number of answered requests ends the loop
/// cleanly: the state is `Stopped` and the action is `Exit`.
pub proof fn lemma_end_of_input_stops_cleanly<P>(
    identity: IdentityContent,
    trace: Seq<Occurrence<P>>,
    handled: HandledContent<P>,
)
    requires
        all_answered(trace),
    ensures
        transition(
            run(StateContent::Running(identity), trace),
            EventContent::<P>::EndOfInput,
            handled,
        ) == (StateContent::Stopped, ActionContent::<P>::Exit),
{
    lemma_replies_follow_requests(identity, trace);
}

/// A whole session that goes well ends cleanly: after the handshake and any
/// number of answered requests the node still runs with the identity that the
/// handshake assigned, and the end of the input then stops it without an
/// error.
pub proof fn lemma_session_ends_cleanly<P>(
    init: Envelope<InitContent>,
    requests: Seq<Occurrence<P>>,
    handled: HandledContent<P>,
)
    requires
        init.payload.typ == InitType::Init,
        all_answered(requests),
    ensures
        run(StateContent::AwaitingInit, seq![(EventContent::<P>::Init(init), handled)] + requests)
            == StateContent::Running(identity_of(init.payload)),
        transition(
            run(
                StateContent::AwaitingInit,
                seq![(EventContent::<P>::Init(init), handled)] + requests,
            ),
            EventContent::<P>::EndOfInput,
            handled,
        ) == (StateContent::Stopped, ActionContent::<P>::Exit),
{
    let first: Occurrence<P> = (EventContent::<P>::Init(init), handled);
    let session = seq![first] + requests;
    assert(session[0] == first);
    assert(session.drop_first() =~= requests);
    lemma_replies_follow_requests(identity_of(init.payload), requests);
}

} // verus!
