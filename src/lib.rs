//! Runtime core for nodes that exchange line-delimited JSON messages:
//! the message model and its JSON mapping, the router, the service
//! pipeline with its middleware, and the node's dispatch decisions.

pub mod error;
pub mod handlers;
pub mod json;
pub mod message;
pub mod middleware;
pub mod node;
pub mod node_state;
pub mod router;
pub mod service;

pub use error::MaelstromError;
pub use message::{Message, MessageBody};
pub use router::Router;
pub use service::{MaelstromService, MessageContext};
