use vstd::prelude::*;

use crate::error::MaelstromError;
use crate::json::{lookup, required_text, required_text_list, JsonValue};
use crate::message::{Message, MessageBody, MessageView};
use crate::node_state::{NodeState, SharedState};

verus! {

/// Whether `reply` answers `req`: it goes back from where `req` went to
/// where it came from.
pub open spec fn is_reply_to(req: MessageView, reply: MessageView) -> bool {
    reply.src == req.dest && reply.dest == req.src
}

/// An application handler for one message type.
pub trait Handler {
    /// Whether `r` is an outcome that this handler may give for `req`.
    spec fn replies(&self, req: Message, r: Result<Message, MaelstromError>) -> bool;

    /// Handles one request. A reply goes back to the request's sender.
    fn handle(&self, req: Message, state: &SharedState) -> (r: Result<Message, MaelstromError>)
        ensures
            self.replies(req, r),
            r is Ok ==> is_reply_to(req@, r->Ok_0@),
    ;
}

/// Whether a handshake payload carries a well-formed `node_id` and
/// `node_ids`.
pub open spec fn handshake_valid(extra: Seq<(String, JsonValue)>) -> bool {
    &&& required_text(lookup(extra, "node_id"@)) is Some
    &&& required_text_list(lookup(extra, "node_ids"@)) is Some
}

/// The reply to a handshake: `init_ok`, answering the request's id.
pub open spec fn init_ok_reply(req: MessageView) -> MessageView {
    MessageView {
        src: req.dest,
        dest: req.src,
        msg_type: "init_ok"@,
        msg_id: 0,
        in_reply_to: req.msg_id,
        extra: Seq::empty(),
    }
}

/// The outcome of the built-in handshake handler on `req`.
pub open spec fn init_outcome(req: Message, r: Result<Message, MaelstromError>) -> bool {
    if handshake_valid(req.body.extra@) {
        r is Ok && r->Ok_0@ == init_ok_reply(req@)
    } else {
        r == Err::<Message, MaelstromError>(MaelstromError::MalformedRequest)
    }
}

/// The built-in handshake handler: stores the node's id and the ids of all
/// nodes, then acknowledges. A malformed payload leaves the state as it was.
pub fn init(r: Message, state: &SharedState) -> (res: Result<Message, MaelstromError>)
    ensures
        init_outcome(r, res),
        res is Ok ==> is_reply_to(r@, res->Ok_0@),
{
    let fresh = match NodeState::from_init(&r.body.extra) {
        Ok(s) => s,
        Err(e) => return Err(e),
    };
    state.replace(fresh);
    let body = MessageBody::new(String::from_str("init_ok"), 0, r.body.msg_id);
    Ok(Message::new(r.dest, r.src, body))
}

/// What a message type is routed to.
#[derive(Clone)]
pub enum Route<H> {
    /// The built-in handshake handler.
    Init,
    /// An application handler.
    Custom(H),
}

/// The route of the first entry for type `t`, if any.
pub open spec fn table_lookup<H>(s: Seq<(String, Route<H>)>, t: Seq<char>) -> Option<Route<H>>
    decreases s.len(),
{
    if s.len() == 0 {
        None
    } else {
        let earlier = table_lookup(s.drop_last(), t);
        if earlier is Some {
            earlier
        } else if s.last().0@ == t {
            Some(s.last().1)
        } else {
            None
        }
    }
}

/// A lookup that succeeds on a prefix gives the same route on the whole.
proof fn lemma_table_prefix<H>(s: Seq<(String, Route<H>)>, n: int, t: Seq<char>)
    requires
        0 <= n <= s.len(),
        table_lookup(s.take(n), t) is Some,
    ensures
        table_lookup(s, t) == table_lookup(s.take(n), t),
    decreases s.len() - n,
{
    if n < s.len() {
        assert(s.take(n + 1).drop_last() =~= s.take(n));
        lemma_table_prefix(s, n + 1, t);
    } else {
        assert(s.take(n) =~= s);
    }
}

/// Whether `after` is `before` with `h` registered for type `t`: `t` gets
/// `h` only where it had no route, and every other type keeps its route.
pub open spec fn registers<H: Handler>(before: Router<H>, t: Seq<char>, h: H, after: Router<H>) -> bool {
    forall|k: Seq<char>|
        #[trigger] after.route_for(k) == if k == t && before.route_for(k) is None {
            Some(Route::Custom(h))
        } else {
            before.route_for(k)
        }
}

/// Registering a second handler for a type keeps the first registration:
/// after both, the type routes as it did after the first, and where it had
/// no route before, it routes to the first handler.
pub proof fn lemma_first_registration_wins<H: Handler>(
    r0: Router<H>,
    t: Seq<char>,
    h1: H,
    r1: Router<H>,
    h2: H,
    r2: Router<H>,
)
    requires
        registers(r0, t, h1, r1),
        registers(r1, t, h2, r2),
    ensures
        r2.route_for(t) == r1.route_for(t),
        r0.route_for(t) is None ==> r2.route_for(t) == Some(Route::Custom(h1)),
        r0.route_for(t) is Some ==> r2.route_for(t) == r0.route_for(t),
{
    assert(r1.route_for(t) is Some);
    assert(r2.route_for(t) == r1.route_for(t));
}

/// Maps message types to handlers. The first registration of a type wins.
#[derive(Clone)]
pub struct Router<H> {
    entries: Vec<(String, Route<H>)>,
}

impl<H: Handler> Router<H> {
    /// The route registered for type `t`, if any.
    pub closed spec fn route_for(&self, t: Seq<char>) -> Option<Route<H>> {
        table_lookup(self.entries@, t)
    }

    /// Whether `r` is what dispatching `req` through this table gives.
    pub open spec fn handled(&self, req: Message, r: Result<Message, MaelstromError>) -> bool {
        match self.route_for(req.body.msg_type@) {
            None => r == Err::<Message, MaelstromError>(MaelstromError::NotSupported),
            Some(Route::Init) => init_outcome(req, r),
            Some(Route::Custom(h)) => h.replies(req, r) && (r is Ok ==> is_reply_to(
                req@,
                r->Ok_0@,
            )),
        }
    }

    /// A table with no routes.
    pub fn empty() -> (r: Self)
        ensures
            forall|t: Seq<char>| r.route_for(t) is None,
    {
        Router { entries: Vec::new() }
    }

    /// A table with the built-in handshake handler registered for `init`.
    pub fn new() -> (r: Self)
        ensures
            r.route_for("init"@) == Some(Route::<H>::Init),
            forall|t: Seq<char>| t != "init"@ ==> r.route_for(t) is None,
    {
        let mut entries: Vec<(String, Route<H>)> = Vec::new();
        entries.push((String::from_str("init"), Route::Init));
        proof {
            reveal_with_fuel(table_lookup, 2);
            assert(entries@.drop_last() =~= Seq::<(String, Route<H>)>::empty());
        }
        Router { entries }
    }

    /// Registers `f` for `msg_type` unless that type has a route already.
    pub fn route(self, msg_type: &str, f: H) -> (r: Self)
        ensures
            registers(self, msg_type@, f, r),
    {
        let found = self.find(msg_type);
        let mut entries = self.entries;
        match found {
            Some(_) => {},
            None => {
                let ghost before = entries@;
                entries.push((String::from_str(msg_type), Route::Custom(f)));
                assert(entries@.drop_last() =~= before);
            },
        }
        Router { entries }
    }

    /// The index of the first entry for type `t`, if any.
    fn find(&self, t: &str) -> (r: Option<usize>)
        ensures
            r is None <==> self.route_for(t@) is None,
            r is Some ==> r->0 < self.entries@.len() && self.route_for(t@) == Some(
                self.entries@[r->0 as int].1,
            ),
    {
        let mut i: usize = 0;
        while i < self.entries.len()
            invariant
                i <= self.entries.len(),
                table_lookup(self.entries@.take(i as int), t@) is None,
            decreases self.entries.len() - i,
        {
            assert(self.entries@.take(i + 1).drop_last() =~= self.entries@.take(i as int));
            let l = String::from_str(t);
            if self.entries[i].0 == l {
                proof {
                    lemma_table_prefix(self.entries@, i + 1, t@);
                }
                return Some(i);
            }
            i = i + 1;
        }
        assert(self.entries@.take(i as int) =~= self.entries@);
        None
    }

    /// Dispatches `req` to the handler for its type and gives back the
    /// handler's outcome unchanged; a type with no route is not supported.
    pub fn handle(&self, req: Message, state: &SharedState) -> (r: Result<Message, MaelstromError>)
        ensures
            self.handled(req, r),
    {
        match self.find(req.body.msg_type.as_str()) {
            None => Err(MaelstromError::NotSupported),
            Some(i) => match &self.entries[i].1 {
                Route::Init => init(req, state),
                Route::Custom(h) => h.handle(req, state),
            },
        }
    }
}

} // verus!
