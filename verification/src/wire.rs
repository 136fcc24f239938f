//! The wire form of a message: one flat JSON object per message.
//!
//! An envelope is an object with the texts `src` and `dest` and the object
//! `body`. A body holds, side by side, the optional identifiers `msg_id` and
//! `in_reply_to`, the discriminator `type`, and the fields of the payload
//! that the discriminator selects.

use vstd::prelude::*;
use crate::json::{
    json_of, jsons_of, list_value, member, members_of, natural_value, object_value, text_value, Json,
};
use crate::message::{
    id_view, ids_view, Body, BodyView, Message, MessageView, Payload, PayloadView,
};

verus! {

/// The error for a JSON value that is no well-formed message: a required
/// field is missing or of the wrong kind, or the discriminator names no known
/// payload.
#[derive(Clone, Copy, Debug, PartialEq, Eq)]
pub struct MalformedMessage;

/// The member of `object` under `key`, where `object` is an object that has
/// one.
pub open spec fn field(object: Json, key: Seq<char>) -> Option<Json> {
    match object {
        Json::Object(members) => if members.contains_key(key) {
            Some(members[key])
        } else {
            None
        },
        _ => None,
    }
}

/// The text under `key`, where there is one.
pub open spec fn text_field(object: Json, key: Seq<char>) -> Option<Seq<char>> {
    match field(object, key) {
        Some(Json::Text(text)) => Some(text),
        _ => None,
    }
}

/// Whether `value` is a number that an identifier can hold.
pub open spec fn is_id(value: Json) -> bool {
    value matches Json::Natural(n) && n <= usize::MAX
}

/// The identifier under `key`, where there is one.
pub open spec fn id_field(object: Json, key: Seq<char>) -> Option<nat> {
    match field(object, key) {
        Some(value) => if is_id(value) {
            Some(value->Natural_0)
        } else {
            None
        },
        None => None,
    }
}

/// The identifier under `key`, which may be left out or `null`. The outer
/// `None` stands for a member that is neither an identifier nor `null`.
pub open spec fn optional_id_field(object: Json, key: Seq<char>) -> Option<Option<nat>> {
    match field(object, key) {
        Some(value) => if is_id(value) {
            Some(Some(value->Natural_0))
        } else if value is Null {
            Some(None)
        } else {
            None
        },
        None => Some(None),
    }
}

/// The list of identifiers under `key`, where there is one.
pub open spec fn id_list_field(object: Json, key: Seq<char>) -> Option<Seq<nat>> {
    match field(object, key) {
        Some(Json::List(items)) => if forall|i: int| 0 <= i < items.len() ==> is_id(#[trigger] items[i]) {
            Some(Seq::new(items.len(), |i: int| items[i]->Natural_0))
        } else {
            None
        },
        _ => None,
    }
}

/// Whether `kind` is the discriminator of a payload.
pub open spec fn is_known_kind(kind: Seq<char>) -> bool {
    kind == "echo"@ || kind == "echo_ok"@ || kind == "init_ok"@
}

/// Whether `value` has a body whose `type` is the discriminator of a payload.
pub open spec fn names_known_payload(value: Json) -> bool {
    &&& field(value, "body"@) matches Some(body)
    &&& text_field(body, "type"@) matches Some(kind)
    &&& is_known_kind(kind)
}

/// The payload that the body object `body` holds, where it holds one: its
/// `type` names a payload, and that payload's fields are all there.
pub open spec fn decoded_payload(body: Json) -> Option<PayloadView> {
    match text_field(body, "type"@) {
        Some(kind) => if kind == "echo"@ {
            match text_field(body, "echo"@) {
                Some(echo) => Some(PayloadView::Echo { echo }),
                None => None,
            }
        } else if kind == "echo_ok"@ {
            match text_field(body, "echo"@) {
                Some(echo) => Some(PayloadView::EchoOk { echo }),
                None => None,
            }
        } else if kind == "init_ok"@ {
            match (
                id_field(body, "msg_id"@),
                id_field(body, "node_id"@),
                id_list_field(body, "node_ids"@),
            ) {
                (Some(msg_id), Some(node_id), Some(node_ids)) => Some(
                    PayloadView::InitOk { msg_id, node_id, node_ids },
                ),
                _ => None,
            }
        } else {
            None
        },
        None => None,
    }
}

/// The body that the object `body` holds, where it holds one.
pub open spec fn decoded_body(body: Json) -> Option<BodyView> {
    match (
        optional_id_field(body, "msg_id"@),
        optional_id_field(body, "in_reply_to"@),
        decoded_payload(body),
    ) {
        (Some(id), Some(in_reply_to_id), Some(payload)) => Some(
            BodyView { id, in_reply_to_id, payload },
        ),
        _ => None,
    }
}

/// The message that `value` holds, where it is a well-formed one.
pub open spec fn decoded(value: Json) -> Option<MessageView> {
    match (text_field(value, "src"@), text_field(value, "dest"@), field(value, "body"@)) {
        (Some(src), Some(dst), Some(body)) => match decoded_body(body) {
            Some(body) => Some(MessageView { src, dst, body }),
            None => None,
        },
        _ => None,
    }
}

/// `members` with the identifier `id`, where there is one, under `key`.
pub open spec fn with_optional_id(
    members: Map<Seq<char>, Json>,
    key: Seq<char>,
    id: Option<nat>,
) -> Map<Seq<char>, Json> {
    match id {
        Some(n) => members.insert(key, Json::Natural(n)),
        None => members,
    }
}

/// The JSON numbers for a list of identifiers.
pub open spec fn id_list(ids: Seq<nat>) -> Seq<Json> {
    Seq::new(ids.len(), |i: int| Json::Natural(ids[i]))
}

/// The flat object for `body`: the identifiers that are present, then the
/// discriminator and the payload's fields. An absent identifier is left out.
/// A payload's own `msg_id` takes the place of the body's.
pub open spec fn encoded_body(body: BodyView) -> Json {
    let ids = with_optional_id(
        with_optional_id(Map::empty(), "msg_id"@, body.id),
        "in_reply_to"@,
        body.in_reply_to_id,
    );
    match body.payload {
        PayloadView::Echo { echo } => Json::Object(
            ids.insert("type"@, Json::Text("echo"@)).insert("echo"@, Json::Text(echo)),
        ),
        PayloadView::EchoOk { echo } => Json::Object(
            ids.insert("type"@, Json::Text("echo_ok"@)).insert("echo"@, Json::Text(echo)),
        ),
        PayloadView::InitOk { msg_id, node_id, node_ids } => Json::Object(
            ids.insert("type"@, Json::Text("init_ok"@)).insert(
                "msg_id"@,
                Json::Natural(msg_id),
            ).insert("node_id"@, Json::Natural(node_id)).insert(
                "node_ids"@,
                Json::List(id_list(node_ids)),
            ),
        ),
    }
}

/// The JSON object for `message`.
pub open spec fn encoded(message: MessageView) -> Json {
    Json::Object(
        Map::empty().insert("src"@, Json::Text(message.src)).insert(
            "dest"@,
            Json::Text(message.dst),
        ).insert("body"@, encoded_body(message.body)),
    )
}

/// Whether the flat form can hold `body` as it is: the one `msg_id` of the
/// object is the body's and, for an `InitOk`, the payload's too, so the two
/// have to agree.
pub open spec fn has_flat_form(body: BodyView) -> bool {
    body.payload matches PayloadView::InitOk { msg_id, .. } ==> body.id == Some(msg_id)
}

/// The names of the body's members differ from one another.
proof fn lemma_body_keys_differ()
    ensures
        "msg_id"@ != "in_reply_to"@,
        "msg_id"@ != "type"@,
        "msg_id"@ != "echo"@,
        "msg_id"@ != "node_id"@,
        "msg_id"@ != "node_ids"@,
        "in_reply_to"@ != "type"@,
        "in_reply_to"@ != "echo"@,
        "in_reply_to"@ != "node_id"@,
        "in_reply_to"@ != "node_ids"@,
        "type"@ != "echo"@,
        "type"@ != "node_id"@,
        "type"@ != "node_ids"@,
        "node_id"@ != "node_ids"@,
{
    reveal_strlit("msg_id");
    reveal_strlit("in_reply_to");
    reveal_strlit("type");
    reveal_strlit("echo");
    reveal_strlit("node_id");
    reveal_strlit("node_ids");
    assert("msg_id"@.len() == 6);
    assert("in_reply_to"@.len() == 11);
    assert("type"@.len() == 4);
    assert("echo"@.len() == 4);
    assert("node_id"@.len() == 7);
    assert("node_ids"@.len() == 8);
    assert("type"@[0] != "echo"@[0]);
}

/// The names of the envelope's members differ from one another.
proof fn lemma_envelope_keys_differ()
    ensures
        "src"@ != "dest"@,
        "src"@ != "body"@,
        "dest"@ != "body"@,
{
    reveal_strlit("src");
    reveal_strlit("dest");
    reveal_strlit("body");
    assert("src"@.len() == 3);
    assert("dest"@.len() == 4);
    assert("body"@.len() == 4);
    assert("dest"@[0] != "body"@[0]);
}

/// The discriminators differ from one another.
proof fn lemma_kinds_differ()
    ensures
        "echo"@ != "echo_ok"@,
        "echo"@ != "init_ok"@,
        "echo_ok"@ != "init_ok"@,
{
    reveal_strlit("echo");
    reveal_strlit("echo_ok");
    reveal_strlit("init_ok");
    assert("echo"@.len() == 4);
    assert("echo_ok"@.len() == 7);
    assert("init_ok"@.len() == 7);
    assert("echo_ok"@[0] != "init_ok"@[0]);
}

/// Decoding the flat object of a body gives the body back, for every payload,
/// wherever the flat form can hold the body.
pub proof fn lemma_body_round_trip(body: Body)
    requires
        has_flat_form(body@),
    ensures
        decoded_body(encoded_body(body@)) == Some(body@),
{
    lemma_body_keys_differ();
    lemma_kinds_differ();
    let view = body@;
    let object = encoded_body(view);
    match view.payload {
        PayloadView::Echo { echo } => {},
        PayloadView::EchoOk { echo } => {},
        PayloadView::InitOk { msg_id, node_id, node_ids } => {
            let items = id_list(node_ids);
            assert(id_list_field(object, "node_ids"@) == Some(node_ids)) by {
                assert(field(object, "node_ids"@) == Some(Json::List(items)));
                assert(body.payload is InitOk);
                assert forall|i: int| 0 <= i < items.len() implies is_id(#[trigger] items[i]) by {
                    assert(node_ids[i] == body.payload->node_ids@[i] as nat);
                }
                assert(Seq::new(items.len(), |i: int| items[i]->Natural_0) =~= node_ids);
            }
        },
    }
}

/// Encoding a message and decoding the result gives the message back, field
/// for field, for every payload, wherever the flat form can hold the body.
pub proof fn lemma_round_trip(message: Message)
    requires
        has_flat_form(message@.body),
    ensures
        decoded(encoded(message@)) == Some(message@),
{
    lemma_envelope_keys_differ();
    lemma_body_round_trip(message.body);
}

/// Every message that comes off the wire is one that the flat form can hold.
pub proof fn lemma_decoded_has_flat_form(value: Json)
    requires
        decoded(value) is Some,
    ensures
        has_flat_form(decoded(value)->0.body),
{
}

/// A value whose body has no discriminator, or one that names no known
/// payload, holds no message.
pub proof fn lemma_unknown_kind_is_rejected(value: Json)
    requires
        !names_known_payload(value),
    ensures
        decoded(value) is None,
{
}

/// The view of an optional text.
spec fn text_view(text: Option<String>) -> Option<Seq<char>> {
    match text {
        Some(t) => Some(t@),
        None => None,
    }
}

/// Reads the text under `key`.
fn read_text(object: &serde_json::Value, key: &str) -> (text: Option<String>)
    ensures
        text_view(text) == text_field(json_of(*object), key@),
{
    match member(object, key) {
        Some(value) => match value.as_str() {
            Some(text) => Some(text.to_owned()),
            None => None,
        },
        None => None,
    }
}

/// Reads `value` as an identifier.
fn read_id(value: &serde_json::Value) -> (id: Option<usize>)
    ensures
        match id {
            Some(n) => json_of(*value) == Json::Natural(n as nat),
            None => !is_id(json_of(*value)),
        },
{
    match value.as_u64() {
        Some(n) => if n <= usize::MAX as u64 {
            Some(n as usize)
        } else {
            None
        },
        None => None,
    }
}

/// Reads the identifier under `key`.
fn read_id_field(object: &serde_json::Value, key: &str) -> (id: Option<usize>)
    ensures
        id_view(id) == id_field(json_of(*object), key@),
{
    match member(object, key) {
        Some(value) => read_id(value),
        None => None,
    }
}

/// The view of an optional identifier that may itself be malformed.
spec fn optional_id_view(id: Option<Option<usize>>) -> Option<Option<nat>> {
    match id {
        Some(inner) => Some(id_view(inner)),
        None => None,
    }
}

/// Reads the identifier under `key`, which may be left out or `null`.
fn read_optional_id_field(object: &serde_json::Value, key: &str) -> (id: Option<Option<usize>>)
    ensures
        optional_id_view(id) == optional_id_field(json_of(*object), key@),
{
    match member(object, key) {
        Some(value) => match read_id(value) {
            Some(n) => Some(Some(n)),
            None => if value.is_null() {
                Some(None)
            } else {
                None
            },
        },
        None => Some(None),
    }
}

/// The view of an optional list of identifiers.
spec fn id_list_view(ids: Option<Vec<usize>>) -> Option<Seq<nat>> {
    match ids {
        Some(v) => Some(ids_view(v@)),
        None => None,
    }
}

/// Reads the list of identifiers under `key`.
fn read_id_list_field(object: &serde_json::Value, key: &str) -> (ids: Option<Vec<usize>>)
    ensures
        id_list_view(ids) == id_list_field(json_of(*object), key@),
{
    let items = match member(object, key) {
        Some(value) => match value.as_array() {
            Some(items) => items,
            None => {
                return None;
            },
        },
        None => {
            return None;
        },
    };
    let ghost elements = jsons_of(items@);
    let mut ids: Vec<usize> = Vec::new();
    let mut i: usize = 0;
    while i < items.len()
        invariant
            i <= items.len(),
            elements == jsons_of(items@),
            field(json_of(*object), key@) == Some(Json::List(elements)),
            ids@.len() == i,
            forall|k: int| 0 <= k < i ==> elements[k] == Json::Natural(#[trigger] ids@[k] as nat),
        decreases items.len() - i,
    {
        match read_id(&items[i]) {
            Some(n) => {
                ids.push(n);
            },
            None => {
                assert(!is_id(elements[i as int]));
                return None;
            },
        }
        i = i + 1;
    }
    proof {
        assert forall|k: int| 0 <= k < elements.len() implies is_id(#[trigger] elements[k]) by {
            assert(elements[k] == Json::Natural(ids@[k] as nat));
        }
        assert(ids_view(ids@) =~= Seq::new(
            elements.len(),
            |k: int| elements[k]->Natural_0,
        ));
    }
    Some(ids)
}

/// The view of an optional payload.
spec fn payload_view(payload: Option<Payload>) -> Option<PayloadView> {
    match payload {
        Some(p) => Some(p@),
        None => None,
    }
}

/// Reads the payload that the body object holds.
fn decode_payload(body: &serde_json::Value) -> (payload: Option<Payload>)
    ensures
        payload_view(payload) == decoded_payload(json_of(*body)),
{
    let kind = match read_text(body, "type") {
        Some(kind) => kind,
        None => {
            return None;
        },
    };
    if kind == "echo".to_owned() {
        match read_text(body, "echo") {
            Some(echo) => Some(Payload::Echo { echo }),
            None => None,
        }
    } else if kind == "echo_ok".to_owned() {
        match read_text(body, "echo") {
            Some(echo) => Some(Payload::EchoOk { echo }),
            None => None,
        }
    } else if kind == "init_ok".to_owned() {
        let msg_id = read_id_field(body, "msg_id");
        let node_id = read_id_field(body, "node_id");
        let node_ids = read_id_list_field(body, "node_ids");
        match (msg_id, node_id, node_ids) {
            (Some(msg_id), Some(node_id), Some(node_ids)) => Some(
                Payload::InitOk { msg_id, node_id, node_ids },
            ),
            _ => None,
        }
    } else {
        None
    }
}

/// The view of an optional body.
spec fn body_view(body: Option<Body>) -> Option<BodyView> {
    match body {
        Some(b) => Some(b@),
        None => None,
    }
}

/// Reads the body that the object `body` holds.
fn decode_body(body: &serde_json::Value) -> (decoded: Option<Body>)
    ensures
        body_view(decoded) == decoded_body(json_of(*body)),
{
    let id = read_optional_id_field(body, "msg_id");
    let in_reply_to_id = read_optional_id_field(body, "in_reply_to");
    let payload = decode_payload(body);
    match (id, in_reply_to_id, payload) {
        (Some(id), Some(in_reply_to_id), Some(payload)) => Some(
            Body { id, in_reply_to_id, payload },
        ),
        _ => None,
    }
}

/// Decodes a JSON value into the message that it holds.
///
/// Succeeds exactly on the values that [`decoded`] gives a message for, with
/// that message. In particular a value without a discriminator, or with one
/// that names no known payload, is refused.
pub fn decode(value: &serde_json::Value) -> (result: Result<Message, MalformedMessage>)
    ensures
        match decoded(json_of(*value)) {
            Some(message) => result matches Ok(m) && m@ == message,
            None => result is Err,
        },
        !names_known_payload(json_of(*value)) ==> result is Err,
{
    let src = read_text(value, "src");
    let dst = read_text(value, "dest");
    let body = match member(value, "body") {
        Some(body) => decode_body(body),
        None => None,
    };
    match (src, dst, body) {
        (Some(src), Some(dst), Some(body)) => Ok(Message { src, dst, body }),
        _ => Err(MalformedMessage),
    }
}

/// Puts the identifier `id`, where there is one, under `key`.
fn insert_optional_id(
    members: &mut serde_json::Map<String, serde_json::Value>,
    key: &str,
    id: Option<usize>,
)
    ensures
        members_of(*final(members)) == with_optional_id(
            members_of(*old(members)),
            key@,
            id_view(id),
        ),
{
    match id {
        Some(n) => {
            members.insert(key.to_owned(), natural_value(n as u64));
        },
        None => {},
    }
}

/// Encodes a list of identifiers as a JSON array of numbers.
fn encode_id_list(ids: &Vec<usize>) -> (value: serde_json::Value)
    ensures
        json_of(value) == Json::List(id_list(ids_view(ids@))),
{
    let mut items: Vec<serde_json::Value> = Vec::new();
    let mut i: usize = 0;
    while i < ids.len()
        invariant
            i <= ids.len(),
            items@.len() == i,
            forall|k: int| 0 <= k < i ==> json_of(#[trigger] items@[k]) == Json::Natural(ids@[k] as nat),
        decreases ids.len() - i,
    {
        items.push(natural_value(ids[i] as u64));
        i = i + 1;
    }
    assert(jsons_of(items@) =~= id_list(ids_view(ids@)));
    list_value(items)
}

/// Encodes a body as its flat object.
fn encode_body(body: &Body) -> (value: serde_json::Value)
    ensures
        json_of(value) == encoded_body(body@),
{
    let mut members = serde_json::Map::new();
    insert_optional_id(&mut members, "msg_id", body.id);
    insert_optional_id(&mut members, "in_reply_to", body.in_reply_to_id);
    match &body.payload {
        Payload::Echo { echo } => {
            members.insert("type".to_owned(), text_value("echo".to_owned()));
            members.insert("echo".to_owned(), text_value(echo.clone()));
        },
        Payload::EchoOk { echo } => {
            members.insert("type".to_owned(), text_value("echo_ok".to_owned()));
            members.insert("echo".to_owned(), text_value(echo.clone()));
        },
        Payload::InitOk { msg_id, node_id, node_ids } => {
            members.insert("type".to_owned(), text_value("init_ok".to_owned()));
            members.insert("msg_id".to_owned(), natural_value(*msg_id as u64));
            members.insert("node_id".to_owned(), natural_value(*node_id as u64));
            members.insert("node_ids".to_owned(), encode_id_list(node_ids));
        },
    }
    object_value(members)
}

/// Encodes a message as the JSON object that holds it: the envelope's three
/// members, with the body in its flat form and absent identifiers left out.
///
/// Wherever the flat form can hold the body, the object decodes to the
/// message again.
pub fn encode(message: &Message) -> (value: serde_json::Value)
    ensures
        json_of(value) == encoded(message@),
        has_flat_form(message@.body) ==> decoded(json_of(value)) == Some(message@),
{
    proof {
        if has_flat_form(message@.body) {
            lemma_round_trip(*message);
        }
    }
    let mut members = serde_json::Map::new();
    members.insert("src".to_owned(), text_value(message.src.clone()));
    members.insert("dest".to_owned(), text_value(message.dst.clone()));
    members.insert("body".to_owned(), encode_body(&message.body));
    object_value(members)
}

} // verus!
