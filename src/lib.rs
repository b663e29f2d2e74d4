//! A runtime for nodes of a line-delimited JSON message-passing protocol,
//! and the protocols built on it: echo, unique ids, and gossip broadcast.
//! Each node is a state machine that takes one event at a time and yields
//! the messages to send.
use vstd::prelude::*;

pub mod echo;
pub mod gossip;
pub mod known_table;
pub mod laws;
pub mod message;
pub mod node;
pub mod unique_ids;
pub mod value_set;

pub use message::accept_init;
pub use message::Body;
pub use message::Event;
pub use message::Init;
pub use message::InitPayload;
pub use message::Message;
pub use message::StdoutWriter;
pub use node::Node;
pub use node::NodeError;

verus! {

} // verus!
