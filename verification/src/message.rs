//! The message envelope, its body and the payload variants.

use vstd::prelude::*;

verus! {

/// What a message carries, selected by its discriminator.
#[derive(Clone, Debug, PartialEq, Eq)]
pub enum Payload {
    /// A request to echo `echo` back.
    Echo { echo: String },
    /// The response to an `Echo`, carrying the echoed text.
    EchoOk { echo: String },
    /// Acknowledgment of initialization, naming this node and its cluster.
    InitOk { msg_id: usize, node_id: usize, node_ids: Vec<usize> },
}

/// The body of a message: the correlation ids and the payload.
#[derive(Clone, Debug, PartialEq, Eq)]
pub struct Body {
    /// Identifies this message among those of its sender.
    pub id: Option<usize>,
    /// The `id` of the message that this one answers.
    pub in_reply_to_id: Option<usize>,
    pub payload: Payload,
}

/// The envelope common to all traffic.
#[derive(Clone, Debug, PartialEq, Eq)]
pub struct Message {
    /// The sending node.
    pub src: String,
    /// The intended recipient.
    pub dst: String,
    pub body: Body,
}

/// The mathematical value of a `Payload`.
pub ghost enum PayloadView {
    Echo { echo: Seq<char> },
    EchoOk { echo: Seq<char> },
    InitOk { msg_id: nat, node_id: nat, node_ids: Seq<nat> },
}

/// The mathematical value of a `Body`.
pub ghost struct BodyView {
    pub id: Option<nat>,
    pub in_reply_to_id: Option<nat>,
    pub payload: PayloadView,
}

/// The mathematical value of a `Message`.
pub ghost struct MessageView {
    pub src: Seq<char>,
    pub dst: Seq<char>,
    pub body: BodyView,
}

/// The value of an optional identifier.
pub open spec fn id_view(id: Option<usize>) -> Option<nat> {
    match id {
        Some(n) => Some(n as nat),
        None => None,
    }
}

/// The values of a list of identifiers, in order.
pub open spec fn ids_view(ids: Seq<usize>) -> Seq<nat> {
    Seq::new(ids.len(), |i: int| ids[i] as nat)
}

impl View for Payload {
    type V = PayloadView;

    open spec fn view(&self) -> PayloadView {
        match *self {
            Payload::Echo { echo } => PayloadView::Echo { echo: echo@ },
            Payload::EchoOk { echo } => PayloadView::EchoOk { echo: echo@ },
            Payload::InitOk { msg_id, node_id, node_ids } => PayloadView::InitOk {
                msg_id: msg_id as nat,
                node_id: node_id as nat,
                node_ids: ids_view(node_ids@),
            },
        }
    }
}

impl View for Body {
    type V = BodyView;

    open spec fn view(&self) -> BodyView {
        BodyView {
            id: id_view(self.id),
            in_reply_to_id: id_view(self.in_reply_to_id),
            payload: self.payload@,
        }
    }
}

impl View for Message {
    type V = MessageView;

    open spec fn view(&self) -> MessageView {
        MessageView { src: self.src@, dst: self.dst@, body: self.body@ }
    }
}

} // verus!
