use vstd::prelude::*;

use crate::error::MaelstromError;
use crate::message::{Message, MessageBody};
use crate::node_state::SharedState;
use crate::router::{init_ok_reply, init_outcome, is_reply_to, Handler, Route, Router};

verus! {

/// A request as it travels through the pipeline: the message and a handle
/// to the node state.
pub struct MessageContext {
    pub msg: Message,
    pub state: SharedState,
}

impl MessageContext {
    pub fn new(msg: Message, state: SharedState) -> (r: Self)
        ensures
            r.msg == msg,
            r.state == state,
    {
        MessageContext { msg, state }
    }
}

/// One stage of the request pipeline.
pub trait Service {
    /// Whether `r` is an outcome that this stage may give for `req`.
    spec fn answers(&self, req: Message, r: Result<Message, MaelstromError>) -> bool;

    /// Processes one request.
    fn call(&mut self, req: MessageContext) -> (r: Result<Message, MaelstromError>)
        ensures
            old(self).answers(req.msg, r),
    ;
}

/// `reply` with its `in_reply_to` set to `id`, all else kept.
pub open spec fn correlated(reply: Message, id: u64) -> Message {
    Message { body: MessageBody { in_reply_to: id, ..reply.body }, ..reply }
}

/// The terminal stage: dispatches through the router and stamps each reply
/// with the id of the request it answers.
#[derive(Clone)]
pub struct MaelstromService<H> {
    router: Router<H>,
}

impl<H: Handler> MaelstromService<H> {
    pub closed spec fn router(&self) -> Router<H> {
        self.router
    }

    pub fn new(router: Router<H>) -> (r: Self)
        ensures
            r.router() == router,
    {
        MaelstromService { router }
    }
}

impl<H: Handler> Service for MaelstromService<H> {
    open spec fn answers(&self, req: Message, r: Result<Message, MaelstromError>) -> bool {
        match r {
            Err(e) => self.router().handled(req, Err(e)),
            Ok(m) => exists|m0: Message|
                self.router().handled(req, Ok(m0)) && m == correlated(m0, req.body.msg_id),
        }
    }

    fn call(&mut self, req: MessageContext) -> (r: Result<Message, MaelstromError>) {
        let MessageContext { msg, state } = req;
        let msg_id = msg.body.msg_id;
        let res = self.router.handle(msg, &state);
        match res {
            Ok(response) => {
                let ghost m0 = response;
                let mut reply = response;
                reply.body.in_reply_to = msg_id;
                assert(self.router().handled(req.msg, Ok(m0)));
                assert(reply == correlated(m0, req.msg.body.msg_id));
                Ok(reply)
            },
            Err(e) => {
                assert(self.router().handled(req.msg, Err(e)));
                Err(e)
            },
        }
    }
}

/// Every reply that leaves the pipeline answers its request: its
/// `in_reply_to` is the request's `msg_id`, and it goes back from the
/// request's destination to the request's source.
pub proof fn lemma_reply_correlated<H: Handler>(
    svc: MaelstromService<H>,
    req: Message,
    reply: Message,
)
    requires
        svc.answers(req, Ok(reply)),
    ensures
        reply.body.in_reply_to == req.body.msg_id,
        reply.src@ == req.dest@,
        reply.dest@ == req.src@,
{
    let m0 = choose|m0: Message|
        svc.router().handled(req, Ok(m0)) && reply == correlated(m0, req.body.msg_id);
    match svc.router().route_for(req.body.msg_type@) {
        None => {},
        Some(Route::Init) => {
            assert(init_outcome(req, Ok(m0)));
            assert(m0@ == init_ok_reply(req@) || m0@ != init_ok_reply(req@));
        },
        Some(Route::Custom(h)) => {
            assert(is_reply_to(req@, m0@));
        },
    }
}

/// A request whose type has no route fails as not supported.
pub proof fn lemma_unrouted_not_supported<H: Handler>(
    svc: MaelstromService<H>,
    req: Message,
    r: Result<Message, MaelstromError>,
)
    requires
        svc.router().route_for(req.body.msg_type@) is None,
        svc.answers(req, r),
    ensures
        r == Err::<Message, MaelstromError>(MaelstromError::NotSupported),
{
}

} // verus!
