//! A minimal message board: clients post short text messages and read back
//! the full list, in insertion order.
//!
//! The verified core is the serialized state-access path: the message store,
//! the command protocol between request handlers and the single state actor,
//! the actor's dispatch step, the handlers' decision logic (validation and
//! status mapping), and the route table of the HTTP surface.

pub mod actor;
pub mod command;
pub mod error;
pub mod handler;
pub mod laws;
pub mod message;
pub mod model;
pub mod router;
pub mod store;
pub mod text;

pub use command::Command;
pub use command::Reply;
pub use error::ServiceError;
pub use message::Message;
pub use store::InMemoryStateStore;
pub use store::StateStore;
