//! The node: one counter, and one transition per inbound message.

use vstd::prelude::*;
use crate::message::{Body, BodyView, Message, MessageView, Payload, PayloadView};

verus! {

/// An echo node. Its only state is the counter from which it numbers what it
/// processes.
#[derive(Debug)]
pub struct EchoNode {
    /// The identifier that the next processed message consumes.
    pub id: usize,
}

/// What a node whose counter stands at `counter` answers to `input`: an
/// `EchoOk` with the same text, sent back the way the request came and
/// numbered `counter`, for an `Echo`; nothing for anything else.
pub open spec fn reply_to(counter: nat, input: MessageView) -> Option<MessageView> {
    match input.body.payload {
        PayloadView::Echo { echo } => Some(
            MessageView {
                src: input.dst,
                dst: input.src,
                body: BodyView {
                    id: Some(counter),
                    in_reply_to_id: input.body.id,
                    payload: PayloadView::EchoOk { echo },
                },
            },
        ),
        PayloadView::EchoOk { .. } => None,
        PayloadView::InitOk { .. } => None,
    }
}

/// The counter after a node whose counter stands at `counter` has processed
/// `input`: every message consumes one identifier, answered or not.
pub open spec fn counter_after(counter: nat, input: MessageView) -> nat {
    counter + 1
}

/// The view of an optional reply.
pub open spec fn reply_view(reply: Option<Message>) -> Option<MessageView> {
    match reply {
        Some(m) => Some(m@),
        None => None,
    }
}

impl EchoNode {
    /// A node that has processed nothing yet.
    pub fn new() -> (node: EchoNode)
        ensures
            node.id == 0,
    {
        EchoNode { id: 0 }
    }

    /// Processes one inbound message and returns the reply to send, if any.
    ///
    /// The counter must have an identifier left to give.
    pub fn step(&mut self, input: Message) -> (reply: Option<Message>)
        requires
            old(self).id < usize::MAX,
        ensures
            reply_view(reply) == reply_to(old(self).id as nat, input@),
            final(self).id as nat == counter_after(old(self).id as nat, input@),
            final(self).id == old(self).id + 1,
            input@.body.payload matches PayloadView::Echo { echo } ==> reply matches Some(r)
                && r@.src == input@.dst && r@.dst == input@.src && r@.body.id == Some(
                old(self).id as nat,
            ) && r@.body.in_reply_to_id == input@.body.id && r@.body.payload
                == (PayloadView::EchoOk { echo }),
            !(input@.body.payload is Echo) ==> reply is None,
    {
        let Message { src, dst, body } = input;
        let Body { id, in_reply_to_id: _, payload } = body;
        let reply = match payload {
            Payload::EchoOk { .. } => None,
            Payload::Echo { echo } => Some(
                Message {
                    src: dst,
                    dst: src,
                    body: Body {
                        id: Some(self.id),
                        in_reply_to_id: id,
                        payload: Payload::EchoOk { echo },
                    },
                },
            ),
            Payload::InitOk { .. } => None,
        };
        self.id = self.id + 1;
        reply
    }
}

/// The counter after a node whose counter stands at `counter` has processed
/// `inputs` in order.
pub open spec fn counter_after_all(counter: nat, inputs: Seq<MessageView>) -> nat
    decreases inputs.len(),
{
    if inputs.len() == 0 {
        counter
    } else {
        counter_after_all(counter_after(counter, inputs.first()), inputs.drop_first())
    }
}

/// The replies that a node whose counter stands at `counter` gives while it
/// processes `inputs` in order.
pub open spec fn replies_to_all(counter: nat, inputs: Seq<MessageView>) -> Seq<MessageView>
    decreases inputs.len(),
{
    if inputs.len() == 0 {
        Seq::empty()
    } else {
        let rest = replies_to_all(counter_after(counter, inputs.first()), inputs.drop_first());
        match reply_to(counter, inputs.first()) {
            Some(reply) => seq![reply] + rest,
            None => rest,
        }
    }
}

/// An echo request is answered by its own text, sent back the way it came and
/// correlated with the request's identifier.
pub proof fn lemma_echo_is_mirrored(counter: nat, input: MessageView)
    requires
        input.body.payload is Echo,
    ensures
        reply_to(counter, input) matches Some(reply) && reply.src == input.dst && reply.dst
            == input.src && reply.body.in_reply_to_id == input.body.id && reply.body.payload == (
            PayloadView::EchoOk { echo: input.body.payload->Echo_echo }
        ),
{
}

/// A response or an acknowledgment is swallowed: no reply, and the counter
/// still moves on by one.
pub proof fn lemma_acknowledgment_is_swallowed(counter: nat, input: MessageView)
    requires
        input.body.payload is EchoOk || input.body.payload is InitOk,
    ensures
        reply_to(counter, input) is None,
        counter_after(counter, input) == counter + 1,
{
}

/// Processing any sequence of messages moves the counter on by exactly their
/// number, whatever they carry.
pub proof fn lemma_counter_advances_by_count(counter: nat, inputs: Seq<MessageView>)
    ensures
        counter_after_all(counter, inputs) == counter + inputs.len(),
    decreases inputs.len(),
{
    if inputs.len() > 0 {
        lemma_counter_advances_by_count(counter_after(counter, inputs.first()), inputs.drop_first());
    }
}

/// The identifiers that a node gives to its replies are taken from the
/// counter's range and strictly increase: none is used twice.
pub proof fn lemma_reply_ids_increase(counter: nat, inputs: Seq<MessageView>)
    ensures
        replies_to_all(counter, inputs).len() <= inputs.len(),
        forall|i: int|
            0 <= i < replies_to_all(counter, inputs).len() ==> {
                let id = (#[trigger] replies_to_all(counter, inputs)[i]).body.id;
                id is Some && counter <= id->0 < counter + inputs.len()
            },
        forall|i: int, j: int|
            0 <= i < j < replies_to_all(counter, inputs).len() ==> (#[trigger] replies_to_all(
                counter,
                inputs,
            )[i]).body.id->0 < (#[trigger] replies_to_all(counter, inputs)[j]).body.id->0,
    decreases inputs.len(),
{
    if inputs.len() > 0 {
        lemma_reply_ids_increase(counter_after(counter, inputs.first()), inputs.drop_first());
    }
}

} // verus!
