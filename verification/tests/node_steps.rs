use echo_node::message::{Body, Message, Payload};
use echo_node::node::EchoNode;

fn message(src: &str, dst: &str, id: Option<usize>, payload: Payload) -> Message {
    Message {
        src: src.to_owned(),
        dst: dst.to_owned(),
        body: Body { id, in_reply_to_id: None, payload },
    }
}

fn echo(text: &str) -> Payload {
    Payload::Echo { echo: text.to_owned() }
}

fn echo_ok(text: &str) -> Payload {
    Payload::EchoOk { echo: text.to_owned() }
}

#[test]
fn new_node_starts_at_zero() {
    assert_eq!(EchoNode::new().id, 0);
}

#[test]
fn first_request_gets_id_zero() {
    let mut node = EchoNode::new();
    let reply = node.step(message("c1", "n1", Some(1), echo("hello")));
    let expected = Message {
        src: "n1".to_owned(),
        dst: "c1".to_owned(),
        body: Body { id: Some(0), in_reply_to_id: Some(1), payload: echo_ok("hello") },
    };
    assert_eq!(reply, Some(expected));
    assert_eq!(node.id, 1);
}

#[test]
fn second_request_gets_id_one() {
    let mut node = EchoNode::new();
    node.step(message("c1", "n1", Some(1), echo("hello")));
    let reply = node.step(message("c1", "n1", Some(2), echo("again")));
    let expected = Message {
        src: "n1".to_owned(),
        dst: "c1".to_owned(),
        body: Body { id: Some(1), in_reply_to_id: Some(2), payload: echo_ok("again") },
    };
    assert_eq!(reply, Some(expected));
    assert_eq!(node.id, 2);
}

#[test]
fn echo_ok_is_swallowed() {
    let mut node = EchoNode::new();
    let reply = node.step(message("c1", "n1", None, echo_ok("hello")));
    assert_eq!(reply, None);
    assert_eq!(node.id, 1);
}

#[test]
fn init_ok_is_swallowed() {
    let mut node = EchoNode { id: 7 };
    let payload = Payload::InitOk { msg_id: 1, node_id: 3, node_ids: vec![1, 2, 3] };
    let reply = node.step(message("c1", "n1", Some(1), payload));
    assert_eq!(reply, None);
    assert_eq!(node.id, 8);
}

#[test]
fn echo_without_id_is_answered_without_correlation() {
    let mut node = EchoNode { id: 41 };
    let reply = node.step(message("a", "b", None, echo("x"))).unwrap();
    assert_eq!(reply.body.id, Some(41));
    assert_eq!(reply.body.in_reply_to_id, None);
    assert_eq!(reply.src, "b");
    assert_eq!(reply.dst, "a");
    assert_eq!(node.id, 42);
}

#[test]
fn echo_ignores_the_request_s_own_in_reply_to() {
    let mut node = EchoNode::new();
    let mut input = message("a", "b", Some(9), echo("x"));
    input.body.in_reply_to_id = Some(5);
    let reply = node.step(input).unwrap();
    assert_eq!(reply.body.in_reply_to_id, Some(9));
}

#[test]
fn echo_mirrors_any_text() {
    for text in ["", "hello", "line\nbreak", "quote \" and \\ slash", "snow \u{2603} man"] {
        let mut node = EchoNode { id: 3 };
        let reply = node.step(message("A", "B", Some(17), echo(text))).unwrap();
        assert_eq!(reply.body.payload, echo_ok(text));
        assert_eq!(reply.src, "B");
        assert_eq!(reply.dst, "A");
        assert_eq!(reply.body.in_reply_to_id, Some(17));
        assert_eq!(reply.body.id, Some(3));
    }
}

#[test]
fn counter_advances_once_per_message() {
    let mut node = EchoNode { id: 100 };
    let inputs = vec![
        message("c1", "n1", Some(1), echo("a")),
        message("c1", "n1", None, echo_ok("a")),
        message("c2", "n1", Some(1), Payload::InitOk { msg_id: 1, node_id: 1, node_ids: vec![] }),
        message("c2", "n1", Some(2), echo("b")),
        message("c1", "n1", Some(2), echo("c")),
    ];
    let count = inputs.len();
    let mut reply_ids = Vec::new();
    for input in inputs {
        if let Some(reply) = node.step(input) {
            reply_ids.push(reply.body.id.unwrap());
        }
    }
    assert_eq!(node.id, 100 + count);
    assert_eq!(reply_ids, vec![100, 103, 104]);
}

#[test]
fn last_identifier_can_still_be_given() {
    let mut node = EchoNode { id: usize::MAX - 1 };
    let reply = node.step(message("a", "b", Some(1), echo("x"))).unwrap();
    assert_eq!(reply.body.id, Some(usize::MAX - 1));
    assert_eq!(node.id, usize::MAX);
}

#[test]
fn nodes_do_not_share_counters() {
    let mut first = EchoNode::new();
    let mut second = EchoNode::new();
    first.step(message("a", "b", Some(1), echo("x")));
    first.step(message("a", "b", Some(2), echo("y")));
    let reply = second.step(message("a", "b", Some(3), echo("z"))).unwrap();
    assert_eq!(reply.body.id, Some(0));
    assert_eq!(first.id, 2);
    assert_eq!(second.id, 1);
}
