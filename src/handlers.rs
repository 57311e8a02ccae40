use vstd::prelude::*;

use crate::error::MaelstromError;
use crate::json::{lookup, set_field, JsonValue};
use crate::message::{Message, MessageView};
use crate::node_state::SharedState;
use crate::router::Handler;

verus! {

/// The reply of type `reply_type` that echoes `req`'s body back to its
/// sender.
pub open spec fn echoed(req: MessageView, reply_type: Seq<char>) -> MessageView {
    MessageView { src: req.dest, dest: req.src, msg_type: reply_type, ..req }
}

/// Answers an `echo` request with `echo_ok`, carrying the request's body
/// members back.
pub fn echo(r: Message, _state: &SharedState) -> (res: Result<Message, MaelstromError>)
    ensures
        res is Ok,
        res->Ok_0@ == echoed(r@, "echo_ok"@),
{
    let mut body = r.body;
    body.msg_type = String::from_str("echo_ok");
    Ok(Message::new(r.dest, r.src, body))
}

/// Whether `reply` answers a `generate` request `req`: `generate_ok`, its
/// body as the request's but with member `id` set to a fresh 36-character
/// identifier.
pub open spec fn generated(req: MessageView, reply: MessageView) -> bool {
    &&& reply.src == req.dest
    &&& reply.dest == req.src
    &&& reply.msg_type == "generate_ok"@
    &&& reply.msg_id == req.msg_id
    &&& reply.in_reply_to == req.in_reply_to
    &&& lookup(reply.extra, "id"@) matches Some(JsonValue::Str(s)) && s@.len() == 36
    &&& forall|k: Seq<char>| k != "id"@ ==> #[trigger] lookup(reply.extra, k) == lookup(req.extra, k)
}

/// Answers a `generate` request with `generate_ok` and a fresh unique id in
/// member `id`.
pub fn generate(r: Message, _state: &SharedState) -> (res: Result<Message, MaelstromError>)
    ensures
        res is Ok,
        generated(r@, res->Ok_0@),
{
    let id = fresh_id();
    let mut body = r.body;
    body.msg_type = String::from_str("generate_ok");
    set_field(&mut body.extra, String::from_str("id"), JsonValue::Str(id));
    Ok(Message::new(r.dest, r.src, body))
}

/// Relies on uuid's `Uuid::new_v4` and its `Display` form: a fresh random
/// identifier, written hyphenated in 36 characters.
#[verifier::external_body]
fn fresh_id() -> (r: String)
    ensures
        r@.len() == 36,
{
    uuid::Uuid::new_v4().to_string()
}

/// The handlers that come with the library.
#[derive(Clone)]
pub enum StandardHandler {
    Echo,
    Generate,
}

impl Handler for StandardHandler {
    open spec fn replies(&self, req: Message, r: Result<Message, MaelstromError>) -> bool {
        match self {
            StandardHandler::Echo => r is Ok && r->Ok_0@ == echoed(req@, "echo_ok"@),
            StandardHandler::Generate => r is Ok && generated(req@, r->Ok_0@),
        }
    }

    fn handle(&self, req: Message, state: &SharedState) -> (r: Result<Message, MaelstromError>) {
        match self {
            StandardHandler::Echo => echo(req, state),
            StandardHandler::Generate => generate(req, state),
        }
    }
}

} // verus!
