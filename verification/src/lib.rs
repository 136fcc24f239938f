//! A single echo node of a message-passing protocol: the message model, its
//! JSON wire form, and the node's transition from an inbound message to at
//! most one reply.

pub mod json;
pub mod message;
pub mod node;
pub mod wire;
