use maelstrom::handlers::StandardHandler;
use maelstrom::json::{get_field, JsonNumber, JsonValue};
use maelstrom::message::{Message, MessageBody};
use maelstrom::middleware::log::LogLayer;
use maelstrom::node::{dispatch_kind, write_action, Dispatch, MaelstromNode, WriteAction};
use maelstrom::node_state::SharedState;
use maelstrom::router::Router;
use maelstrom::service::{MaelstromService, MessageContext, Service};
use maelstrom::MaelstromError;

fn s(x: &str) -> String {
    x.to_string()
}

fn request(msg_type: &str, msg_id: u64, extra: Vec<(String, JsonValue)>) -> Message {
    let mut body = MessageBody::new(s(msg_type), msg_id, 0);
    body.extra = extra;
    Message::new(s("c1"), s("n1"), body)
}

fn init_request(msg_id: u64) -> Message {
    request(
        "init",
        msg_id,
        vec![
            (s("node_id"), JsonValue::Str(s("n1"))),
            (
                s("node_ids"),
                JsonValue::Array(vec![
                    JsonValue::Str(s("n1")),
                    JsonValue::Str(s("n2")),
                    JsonValue::Str(s("n3")),
                ]),
            ),
        ],
    )
}

fn standard_router() -> Router<StandardHandler> {
    Router::new().route("echo", StandardHandler::Echo).route("generate", StandardHandler::Generate)
}

fn standard_service() -> MaelstromService<StandardHandler> {
    MaelstromService::new(standard_router())
}

#[test]
fn reply_correlates_with_request() {
    let mut svc = LogLayer {}.layer(standard_service());
    let req = request("echo", 17, vec![(s("echo"), JsonValue::Str(s("hi")))]);
    let reply = svc.call(MessageContext::new(req, SharedState::new())).unwrap();
    assert_eq!(reply.body.in_reply_to, 17);
    assert_eq!(reply.src, "n1");
    assert_eq!(reply.dest, "c1");
    assert_eq!(reply.body.msg_type, "echo_ok");
    assert!(matches!(get_field(&reply.body.extra, "echo"), Some(JsonValue::Str(t)) if t == "hi"));
}

#[test]
fn pipeline_overwrites_stale_in_reply_to() {
    let mut svc = standard_service();
    let mut req = request("echo", 5, vec![]);
    req.body.in_reply_to = 99;
    let reply = svc.call(MessageContext::new(req, SharedState::new())).unwrap();
    assert_eq!(reply.body.in_reply_to, 5);
}

#[test]
fn unregistered_type_is_not_supported_and_writes_nothing() {
    let mut svc = standard_service();
    let res = svc.call(MessageContext::new(request("frobnicate", 3, vec![]), SharedState::new()));
    assert_eq!(res.as_ref().unwrap_err(), &MaelstromError::NotSupported);
    assert!(matches!(write_action(res), WriteAction::Report(MaelstromError::NotSupported)));
}

#[test]
fn reply_is_written_as_json() {
    let mut svc = standard_service();
    let res = svc.call(MessageContext::new(request("echo", 8, vec![]), SharedState::new()));
    match write_action(res) {
        WriteAction::Emit(v) => {
            let m = Message::from_json(v).unwrap();
            assert_eq!(m.body.in_reply_to, 8);
            assert_eq!(m.body.msg_type, "echo_ok");
        }
        WriteAction::Report(e) => panic!("unexpected error {:?}", e),
    }
}

#[test]
fn handshake_applied_before_next_message() {
    let state = SharedState::new();
    let mut node = MaelstromNode::new(standard_service());
    let first = init_request(1);
    assert_eq!(dispatch_kind(&first), Dispatch::Handshake);
    let ack = node.process(first, &state).unwrap();
    assert_eq!(ack.body.msg_type, "init_ok");
    assert_eq!(ack.body.in_reply_to, 1);
    assert_eq!(ack.body.msg_id, 0);
    assert_eq!(ack.src, "n1");
    assert_eq!(ack.dest, "c1");
    let next = request("echo", 2, vec![]);
    assert_eq!(dispatch_kind(&next), Dispatch::Pipeline);
    let seen = state.clone().snapshot();
    assert_eq!(seen.node_id, "n1");
    assert_eq!(seen.node_ids, vec![s("n1"), s("n2"), s("n3")]);
    let reply = node.process(next, &state).unwrap();
    assert_eq!(reply.body.in_reply_to, 2);
}

#[test]
fn malformed_handshake_leaves_state_untouched() {
    let state = SharedState::new();
    let missing_ids = request("init", 1, vec![(s("node_id"), JsonValue::Str(s("n1")))]);
    let res = maelstrom::router::init(missing_ids, &state);
    assert_eq!(res.unwrap_err(), MaelstromError::MalformedRequest);
    let bad_item = request(
        "init",
        1,
        vec![
            (s("node_id"), JsonValue::Str(s("n1"))),
            (s("node_ids"), JsonValue::Array(vec![JsonValue::Number(JsonNumber::UInt(1))])),
        ],
    );
    let res = maelstrom::router::init(bad_item, &state);
    assert_eq!(res.unwrap_err(), MaelstromError::MalformedRequest);
    assert_eq!(state.snapshot().node_id, "");
    assert!(state.snapshot().node_ids.is_empty());
}

#[test]
fn first_registration_wins() {
    let router = Router::new().route("init", StandardHandler::Echo);
    let mut svc = MaelstromService::new(router);
    let state = SharedState::new();
    let reply = svc.call(MessageContext::new(init_request(4), state.clone())).unwrap();
    assert_eq!(reply.body.msg_type, "init_ok");
    assert_eq!(state.snapshot().node_id, "n1");

    let router = Router::new().route("echo", StandardHandler::Echo).route("echo", StandardHandler::Generate);
    let mut svc = MaelstromService::new(router);
    let reply = svc.call(MessageContext::new(request("echo", 6, vec![]), SharedState::new())).unwrap();
    assert_eq!(reply.body.msg_type, "echo_ok");
    assert!(get_field(&reply.body.extra, "id").is_none());
}

#[test]
fn generate_adds_fresh_id() {
    let mut svc = standard_service();
    let a = svc.call(MessageContext::new(request("generate", 1, vec![]), SharedState::new())).unwrap();
    let b = svc.call(MessageContext::new(request("generate", 2, vec![]), SharedState::new())).unwrap();
    assert_eq!(a.body.msg_type, "generate_ok");
    let id_of = |m: &Message| match get_field(&m.body.extra, "id") {
        Some(JsonValue::Str(t)) => t.clone(),
        _ => panic!("no id"),
    };
    assert_eq!(id_of(&a).len(), 36);
    assert_ne!(id_of(&a), id_of(&b));
    assert_eq!(b.body.in_reply_to, 2);
}

#[test]
fn out_of_order_completion_keeps_correlation() {
    let rt = tokio::runtime::Runtime::new().unwrap();
    let n: u64 = 6;
    let replies = rt.block_on(async move {
        let svc = standard_service();
        let state = SharedState::new();
        let (tx, mut rx) = tokio::sync::mpsc::channel(8);
        for i in 0..n {
            let mut svc = svc.clone();
            let state = state.clone();
            let tx = tx.clone();
            tokio::spawn(async move {
                tokio::time::sleep(std::time::Duration::from_millis(20 * (n - i))).await;
                let res = svc.call(MessageContext::new(request("echo", 100 + i, vec![]), state));
                tx.send(res).await.unwrap();
            });
        }
        drop(tx);
        let mut out = Vec::new();
        while let Some(res) = rx.recv().await {
            out.push(res.unwrap());
        }
        out
    });
    assert_eq!(replies.len(), n as usize);
    let mut ids: Vec<u64> = replies.iter().map(|m| m.body.in_reply_to).collect();
    for m in &replies {
        assert!(m.body.in_reply_to >= 100 && m.body.in_reply_to < 100 + n);
        assert_eq!(m.body.msg_id, m.body.in_reply_to);
    }
    ids.sort();
    assert_eq!(ids, (100..100 + n).collect::<Vec<u64>>());
}
