use vstd::prelude::*;

use crate::error::MaelstromError;
use crate::json::{
    lemma_lookup_head, lemma_lookup_tail, lemma_others_all, lemma_others_tail, lookup, others, split_fields, text_field, uint_field, Fields, JsonNumber, JsonValue,
};

verus! {

/// The body of a message: its type, its correlation numbers and an open
/// set of further members.
#[derive(Debug)]
pub struct MessageBody {
    pub msg_type: String,
    pub msg_id: u64,
    pub in_reply_to: u64,
    /// Members beyond the three named ones, in order.
    pub extra: Fields,
}

/// One protocol message: who sent it, to whom, and its body.
#[derive(Debug)]
pub struct Message {
    pub src: String,
    pub dest: String,
    pub body: MessageBody,
}

/// What a message holds, with its strings as character sequences.
pub ghost struct MessageView {
    pub src: Seq<char>,
    pub dest: Seq<char>,
    pub msg_type: Seq<char>,
    pub msg_id: u64,
    pub in_reply_to: u64,
    pub extra: Seq<(String, JsonValue)>,
}

impl View for Message {
    type V = MessageView;

    open spec fn view(&self) -> MessageView {
        MessageView {
            src: self.src@,
            dest: self.dest@,
            msg_type: self.body.msg_type@,
            msg_id: self.body.msg_id,
            in_reply_to: self.body.in_reply_to,
            extra: self.body.extra@,
        }
    }
}

/// Whether a member name is one that the body itself carries.
pub open spec fn is_reserved(k: Seq<char>) -> bool {
    k == "type"@ || k == "msg_id"@ || k == "in_reply_to"@
}

/// Whether no member of `s` has a name that the body itself carries.
pub open spec fn no_reserved_names(s: Seq<(String, JsonValue)>) -> bool {
    forall|i: int| 0 <= i < s.len() ==> !is_reserved((#[trigger] s[i]).0@)
}

/// The body's members beyond the three named ones.
pub open spec fn body_extra(bf: Seq<(String, JsonValue)>) -> Seq<(String, JsonValue)> {
    others(bf, "type"@, "msg_id"@, "in_reply_to"@)
}

/// Whether a body object's members decode: each named member, where
/// present, has the right kind.
pub open spec fn body_decodes(bf: Seq<(String, JsonValue)>) -> bool {
    &&& text_field(lookup(bf, "type"@)) is Some
    &&& uint_field(lookup(bf, "msg_id"@)) is Some
    &&& uint_field(lookup(bf, "in_reply_to"@)) is Some
}

/// Whether a JSON value decodes to a message: an object whose `src` and
/// `dest`, where present, are strings and whose `body`, where present, is
/// an object that decodes. Other members are ignored.
pub open spec fn decodes(v: JsonValue) -> bool {
    match v {
        JsonValue::Object(top) => {
            &&& text_field(lookup(top@, "src"@)) is Some
            &&& text_field(lookup(top@, "dest"@)) is Some
            &&& match lookup(top@, "body"@) {
                None => true,
                Some(JsonValue::Object(bf)) => body_decodes(bf@),
                Some(_) => false,
            }
        },
        _ => false,
    }
}

/// The message that a decodable JSON value stands for; absent members take
/// their zero value.
pub open spec fn decoded(v: JsonValue) -> MessageView {
    let top = v->Object_0@;
    let body = lookup(top, "body"@);
    let bf = if body is Some {
        body->0->Object_0@
    } else {
        Seq::empty()
    };
    MessageView {
        src: text_field(lookup(top, "src"@))->0,
        dest: text_field(lookup(top, "dest"@))->0,
        msg_type: text_field(lookup(bf, "type"@))->0,
        msg_id: uint_field(lookup(bf, "msg_id"@))->0,
        in_reply_to: uint_field(lookup(bf, "in_reply_to"@))->0,
        extra: body_extra(bf),
    }
}

/// Whether `f` is the member list of an encoded body: `type`, `msg_id`,
/// `in_reply_to`, then the extra members in order.
pub open spec fn body_encodes(m: MessageView, f: Seq<(String, JsonValue)>) -> bool {
    &&& f.len() == 3 + m.extra.len()
    &&& f[0].0@ == "type"@
    &&& f[0].1 is Str && f[0].1->Str_0@ == m.msg_type
    &&& f[1].0@ == "msg_id"@
    &&& f[1].1 == JsonValue::Number(JsonNumber::UInt(m.msg_id))
    &&& f[2].0@ == "in_reply_to"@
    &&& f[2].1 == JsonValue::Number(JsonNumber::UInt(m.in_reply_to))
    &&& f.skip(3) == m.extra
}

/// Whether `v` is the encoding of `m`: an object with members `src`,
/// `dest` and `body`, in that order.
pub open spec fn encodes(m: MessageView, v: JsonValue) -> bool {
    match v {
        JsonValue::Object(top) => {
            &&& top@.len() == 3
            &&& top@[0].0@ == "src"@
            &&& top@[0].1 is Str && top@[0].1->Str_0@ == m.src
            &&& top@[1].0@ == "dest"@
            &&& top@[1].1 is Str && top@[1].1->Str_0@ == m.dest
            &&& top@[2].0@ == "body"@
            &&& top@[2].1 is Object && body_encodes(m, top@[2].1->Object_0@)
        },
        _ => false,
    }
}

/// Decoding the encoding of a message succeeds and gives the message back,
/// as long as no extra member has a name that the body itself carries.
pub proof fn lemma_round_trip(m: MessageView, v: JsonValue)
    requires
        encodes(m, v),
        no_reserved_names(m.extra),
    ensures
        decodes(v),
        decoded(v) == m,
{
    reveal_strlit("src");
    reveal_strlit("dest");
    reveal_strlit("body");
    reveal_strlit("type");
    reveal_strlit("msg_id");
    reveal_strlit("in_reply_to");
    assert("src"@.len() != "dest"@.len() && "src"@.len() != "body"@.len());
    assert("dest"@[0] != "body"@[0]);
    assert("type"@.len() != "msg_id"@.len() && "type"@.len() != "in_reply_to"@.len());
    assert("msg_id"@.len() != "in_reply_to"@.len());
    let top = v->Object_0@;
    lemma_lookup_head(top, "src"@);
    lemma_lookup_tail(top, "dest"@);
    lemma_lookup_head(top.drop_first(), "dest"@);
    lemma_lookup_tail(top, "body"@);
    lemma_lookup_tail(top.drop_first(), "body"@);
    lemma_lookup_head(top.drop_first().drop_first(), "body"@);
    let bf = top[2].1->Object_0@;
    lemma_lookup_head(bf, "type"@);
    lemma_lookup_tail(bf, "msg_id"@);
    lemma_lookup_head(bf.drop_first(), "msg_id"@);
    lemma_lookup_tail(bf, "in_reply_to"@);
    lemma_lookup_tail(bf.drop_first(), "in_reply_to"@);
    lemma_lookup_head(bf.drop_first().drop_first(), "in_reply_to"@);
    let (k1, k2, k3) = ("type"@, "msg_id"@, "in_reply_to"@);
    lemma_others_tail(bf, k1, k2, k3);
    lemma_others_tail(bf.drop_first(), k1, k2, k3);
    lemma_others_tail(bf.drop_first().drop_first(), k1, k2, k3);
    assert(bf.drop_first().drop_first().drop_first() =~= bf.skip(3));
    assert forall|i: int| 0 <= i < m.extra.len() implies {
        let n = (#[trigger] m.extra[i]).0@;
        n != k1 && n != k2 && n != k3
    } by {
        assert(!is_reserved(m.extra[i].0@));
    }
    lemma_others_all(m.extra, k1, k2, k3);
}

impl MessageBody {
    /// A body with the given type and correlation numbers and no further
    /// members.
    pub fn new(msg_type: String, msg_id: u64, in_reply_to: u64) -> (r: Self)
        ensures
            r.msg_type == msg_type,
            r.msg_id == msg_id,
            r.in_reply_to == in_reply_to,
            r.extra@ == Seq::<(String, JsonValue)>::empty(),
    {
        MessageBody { msg_type, msg_id, in_reply_to, extra: Vec::new() }
    }
}

impl Message {
    pub fn new(src: String, dest: String, body: MessageBody) -> (r: Self)
        ensures
            r == (Message { src, dest, body }),
    {
        Message { src, dest, body }
    }

    /// The message as a JSON object.
    pub fn into_json(self) -> (r: JsonValue)
        ensures
            encodes(self@, r),
    {
        let Message { src, dest, body } = self;
        let MessageBody { msg_type, msg_id, in_reply_to, extra } = body;
        let ghost extra_view = extra@;
        let mut bf: Fields = Vec::new();
        bf.push((String::from_str("type"), JsonValue::Str(msg_type)));
        bf.push((String::from_str("msg_id"), JsonValue::Number(JsonNumber::UInt(msg_id))));
        bf.push(
            (String::from_str("in_reply_to"), JsonValue::Number(JsonNumber::UInt(in_reply_to))),
        );
        let mut rest = extra;
        bf.append(&mut rest);
        assert(bf@.skip(3) =~= extra_view);
        let mut top: Fields = Vec::new();
        top.push((String::from_str("src"), JsonValue::Str(src)));
        top.push((String::from_str("dest"), JsonValue::Str(dest)));
        top.push((String::from_str("body"), JsonValue::Object(bf)));
        JsonValue::Object(top)
    }

    /// Reads a message from a JSON value. Absent members take their zero
    /// value and unknown members are ignored.
    pub fn from_json(v: JsonValue) -> (r: Result<Message, MaelstromError>)
        ensures
            r is Ok <==> decodes(v),
            r is Ok ==> r->Ok_0@ == decoded(v),
            r is Err ==> r->Err_0 == MaelstromError::MalformedRequest,
    {
        proof {
            reveal_strlit("src");
            reveal_strlit("dest");
            reveal_strlit("body");
            assert("src"@.len() != "dest"@.len() && "src"@.len() != "body"@.len());
            assert("dest"@[0] != "body"@[0]);
        }
        match v {
            JsonValue::Object(top) => {
                let (src, dest, body, _) = split_fields(top, "src", "dest", "body");
                let src = match text_of(src) {
                    Some(s) => s,
                    None => return Err(MaelstromError::MalformedRequest),
                };
                let dest = match text_of(dest) {
                    Some(s) => s,
                    None => return Err(MaelstromError::MalformedRequest),
                };
                let body = match body {
                    None => {
                        let r = MessageBody::new(String::new(), 0, 0);
                        assert(body_extra(Seq::empty()) =~= Seq::empty());
                        r
                    },
                    Some(JsonValue::Object(bf)) => match body_from_fields(bf) {
                        Some(b) => b,
                        None => return Err(MaelstromError::MalformedRequest),
                    },
                    Some(_) => return Err(MaelstromError::MalformedRequest),
                };
                Ok(Message::new(src, dest, body))
            },
            _ => Err(MaelstromError::MalformedRequest),
        }
    }
}

/// Reads a member as a string field.
fn text_of(v: Option<JsonValue>) -> (r: Option<String>)
    ensures
        r is Some == text_field(v) is Some,
        r is Some ==> r->0@ == text_field(v)->0,
{
    match v {
        None => Some(String::new()),
        Some(JsonValue::Str(s)) => Some(s),
        Some(_) => None,
    }
}

/// Reads a member as an unsigned integer field.
fn uint_of(v: Option<JsonValue>) -> (r: Option<u64>)
    ensures
        r == uint_field(v),
{
    match v {
        None => Some(0),
        Some(JsonValue::Number(JsonNumber::UInt(n))) => Some(n),
        Some(_) => None,
    }
}

/// Reads a body from its object's members.
fn body_from_fields(bf: Fields) -> (r: Option<MessageBody>)
    ensures
        r is Some == body_decodes(bf@),
        r is Some ==> r->0.msg_type@ == text_field(lookup(bf@, "type"@))->0,
        r is Some ==> r->0.msg_id == uint_field(lookup(bf@, "msg_id"@))->0,
        r is Some ==> r->0.in_reply_to == uint_field(lookup(bf@, "in_reply_to"@))->0,
        r is Some ==> r->0.extra@ == body_extra(bf@),
{
    proof {
        reveal_strlit("type");
        reveal_strlit("msg_id");
        reveal_strlit("in_reply_to");
        assert("type"@.len() != "msg_id"@.len() && "type"@.len() != "in_reply_to"@.len());
        assert("msg_id"@.len() != "in_reply_to"@.len());
    }
    let (t, id, irt, extra) = split_fields(bf, "type", "msg_id", "in_reply_to");
    let msg_type = match text_of(t) {
        Some(s) => s,
        None => return None,
    };
    let msg_id = match uint_of(id) {
        Some(n) => n,
        None => return None,
    };
    let in_reply_to = match uint_of(irt) {
        Some(n) => n,
        None => return None,
    };
    Some(MessageBody { msg_type, msg_id, in_reply_to, extra })
}

} // verus!
