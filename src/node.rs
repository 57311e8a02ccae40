use vstd::prelude::*;

use crate::error::MaelstromError;
use crate::json::JsonValue;
use crate::message::{encodes, Message};
pub use crate::node_state::{NodeState, SharedState};
use crate::router::{init, init_outcome, is_reply_to};
use crate::service::{MessageContext, Service};

verus! {

/// Inbound queues hold at most this many messages; senders wait when full.
pub const CHANNEL_BUFFER_SIZE: usize = 10;

/// How the dispatcher treats one inbound message.
#[derive(Debug, Clone, Copy, PartialEq, Eq, Structural)]
pub enum Dispatch {
    /// The handshake: handled at once, before the next message is taken.
    Handshake,
    /// Anything else: handed to the pipeline in a task of its own.
    Pipeline,
}

/// Whether a message is the handshake.
pub open spec fn is_handshake(msg: Message) -> bool {
    msg.body.msg_type@ == "init"@
}

/// Decides how the dispatcher treats `msg`.
pub fn dispatch_kind(msg: &Message) -> (d: Dispatch)
    ensures
        d == Dispatch::Handshake <==> is_handshake(*msg),
        d == Dispatch::Pipeline <==> !is_handshake(*msg),
{
    let init_type = String::from_str("init");
    if msg.body.msg_type == init_type {
        Dispatch::Handshake
    } else {
        Dispatch::Pipeline
    }
}

/// What the writer does with one outcome.
#[derive(Debug)]
pub enum WriteAction {
    /// Write this reply as one line on the output stream.
    Emit(JsonValue),
    /// Report this error on the diagnostic stream; write nothing.
    Report(MaelstromError),
}

/// Decides what the writer does with an outcome: a reply is written, an
/// error only reported.
pub fn write_action(outcome: Result<Message, MaelstromError>) -> (a: WriteAction)
    ensures
        outcome is Ok <==> a is Emit,
        outcome is Ok ==> encodes(outcome->Ok_0@, a->Emit_0),
        outcome is Err ==> a->Report_0 == outcome->Err_0,
{
    match outcome {
        Ok(reply) => WriteAction::Emit(reply.into_json()),
        Err(e) => WriteAction::Report(e),
    }
}

/// A node: the pipeline that inbound messages other than the handshake go
/// through.
pub struct MaelstromNode<S> {
    service: S,
}

impl<S: Service> MaelstromNode<S> {
    pub closed spec fn service(&self) -> S {
        self.service
    }

    pub fn new(service: S) -> (r: Self)
        ensures
            r.service() == service,
    {
        MaelstromNode { service }
    }

    /// The pipeline, for the tasks that run it.
    pub fn pipeline(&self) -> (r: &S)
        ensures
            *r == self.service(),
    {
        &self.service
    }

    /// Processes one inbound message as the dispatcher does, but in place:
    /// the handshake goes straight to its handler, so the node state is set
    /// when this returns; any other message goes through the pipeline.
    pub fn process(&mut self, msg: Message, state: &SharedState) -> (r: Result<
        Message,
        MaelstromError,
    >)
        ensures
            is_handshake(msg) ==> init_outcome(msg, r),
            is_handshake(msg) && r is Ok ==> is_reply_to(msg@, r->Ok_0@),
            !is_handshake(msg) ==> old(self).service().answers(msg, r),
    {
        match dispatch_kind(&msg) {
            Dispatch::Handshake => init(msg, state),
            Dispatch::Pipeline => self.service.call(MessageContext::new(msg, state.clone())),
        }
    }
}

} // verus!
